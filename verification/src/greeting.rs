//! The greeting contract.

use vstd::prelude::*;

verus! {

/// A contract with a single call, which greets whoever is named to it.
#[derive(Clone, Copy, Debug)]
pub struct Contract;

impl Contract {
    /// The greeting for `to`: the word "Hello", then `to` itself.
    pub fn hello(to: String) -> (words: Vec<String>)
        ensures
            words@.len() == 2,
            words@[0]@ == "Hello"@,
            words@[1]@ == to@,
    {
        let mut words: Vec<String> = Vec::new();
        words.push("Hello".to_owned());
        words.push(to);
        words
    }
}

} // verus!
