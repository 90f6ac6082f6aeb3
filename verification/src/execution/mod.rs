//! Instantiation and execution: values, instances, the two stacks and the
//! instructions.

use rand::distributions::Alphanumeric;
use rand::distributions::DistString;
use vstd::prelude::*;

pub mod errors;
pub mod importer;
pub mod init;
pub mod inst;
pub mod instr;
pub mod stack;
pub mod value;
pub mod vm;

verus! {

/// Whether a character is an ASCII letter or digit.
pub open spec fn is_alphanumeric(c: char) -> bool {
    ('0' <= c && c <= '9') || ('A' <= c && c <= 'Z') || ('a' <= c && c <= 'z')
}

/// `DistString::sample_string` of rand for `Alphanumeric`, on the
/// generator of the thread: a string of `n` characters, each an ASCII
/// letter or digit chosen at random.
#[verifier::external_body]
pub fn random_str(n: usize) -> (r: String)
    ensures
        r@.len() == n,
        forall|i: int| 0 <= i < n ==> is_alphanumeric(#[trigger] r@[i]),
{
    Alphanumeric.sample_string(&mut rand::thread_rng(), n)
}

} // verus!
