//! The single-use meeting point from which a lasting channel is made.

use vstd::prelude::*;
use crate::error::{Error, Result};

verus! {

/// A rendezvous: the identifier handed to the peer, and whether the one
/// connection that it admits has been taken.
#[derive(Debug)]
pub struct Rendezvous {
    identifier: String,
    spent: bool,
}

impl Rendezvous {
    /// The identifier that names the rendezvous.
    pub closed spec fn identifier(&self) -> Seq<char> {
        self.identifier@
    }

    /// Whether the rendezvous has been accepted on.
    pub closed spec fn spent(&self) -> bool {
        self.spent
    }

    /// A fresh rendezvous under `identifier`.
    pub fn new(identifier: String) -> (r: Rendezvous)
        ensures
            r.identifier() == identifier@,
            !r.spent(),
    {
        Rendezvous { identifier, spent: false }
    }

    /// The identifier to hand to the peer.
    pub fn name(&self) -> (r: &str)
        ensures
            r@ == self.identifier(),
    {
        self.identifier.as_str()
    }

    /// Whether a connection can still be accepted.
    pub fn is_open(&self) -> (r: bool)
        ensures
            r == !self.spent(),
    {
        !self.spent
    }

    /// Takes the one connection. `first` is the peer's first message, `None`
    /// where none arrived. A spent rendezvous gives `AcceptConn` whatever
    /// `first` holds, and every rendezvous is spent afterwards.
    pub fn accept(&mut self, first: Option<Vec<u8>>) -> (r: Result<Vec<u8>>)
        ensures
            final(self).spent(),
            final(self).identifier() == old(self).identifier(),
            r == accept_result(old(self).spent(), first),
    {
        if self.spent {
            return Err(Error::AcceptConn);
        }
        self.spent = true;
        match first {
            Some(raw) => Ok(raw),
            None => Err(Error::AcceptConn),
        }
    }
}

/// What accepting gives, by whether the rendezvous was spent and what arrived.
pub open spec fn accept_result(spent: bool, first: Option<Vec<u8>>) -> Result<Vec<u8>> {
    if spent {
        Err(Error::AcceptConn)
    } else {
        match first {
            Some(raw) => Ok(raw),
            None => Err(Error::AcceptConn),
        }
    }
}

/// On a spent rendezvous an accept fails with `AcceptConn`, a failure of the
/// channel, whatever seems to have arrived. Every accept leaves the
/// rendezvous spent, so of two accepts on one rendezvous the second fails.
pub proof fn lemma_second_accept_fails(second: Option<Vec<u8>>)
    ensures
        accept_result(true, second) == Err::<Vec<u8>, Error>(Error::AcceptConn),
        Error::AcceptConn.transport(),
{
}

} // verus!
