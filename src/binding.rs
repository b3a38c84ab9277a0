//! Checks on the key map a script binds buffers with.
use crate::CHANNEL_NUM;
use vstd::prelude::*;

verus! {

broadcast use {vstd::string::axiom_spec_iter, vstd::string::next_postcondition};

/// Why a binding of the key map was refused.
#[derive(Clone, Copy, Debug, PartialEq, Eq, Structural)]
pub enum BindingError {
    /// The key's name is not exactly one character.
    NotOneCharacter,
    /// The key is one character, but not a lower-case ASCII letter.
    NotLowercase(char),
    /// The bound array is not of shape `[frames, CHANNEL_NUM]`.
    BadShape,
}

pub open spec fn is_ascii_lower(c: char) -> bool {
    'a' <= c <= 'z'
}

/// The trigger a key map entry binds: a name of one lower-case ASCII letter.
pub open spec fn spec_binding_key(name: Seq<char>) -> Result<char, BindingError> {
    if name.len() != 1 {
        Err(BindingError::NotOneCharacter)
    } else if !is_ascii_lower(name[0]) {
        Err(BindingError::NotLowercase(name[0]))
    } else {
        Ok(name[0])
    }
}

/// Reads the trigger a key map entry's name binds.
pub fn binding_key(name: &str) -> (r: Result<char, BindingError>)
    ensures
        r == spec_binding_key(name@),
{
    let mut chars = name.chars();
    let first = chars.next();
    let second = chars.next();
    match (first, second) {
        (Some(c), None) => {
            if 'a' <= c && c <= 'z' {
                Ok(c)
            } else {
                Err(BindingError::NotLowercase(c))
            }
        },
        _ => Err(BindingError::NotOneCharacter),
    }
}

/// Checks that a bound array has the shape `[frames, CHANNEL_NUM]`.
pub fn check_shape(dims: &[usize]) -> (r: Result<(), BindingError>)
    ensures
        r is Ok <==> dims@.len() == 2 && dims@[1] == CHANNEL_NUM as usize,
        r is Err ==> r == Err::<(), BindingError>(BindingError::BadShape),
{
    if dims.len() == 2 && dims[1] == CHANNEL_NUM as usize {
        Ok(())
    } else {
        Err(BindingError::BadShape)
    }
}

} // verus!
