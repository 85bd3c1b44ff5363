use vstd::prelude::*;

use crate::domain::tripcode::{tripcode_of, Tripcode};
use crate::errors::UsernameError;
use crate::frame::{text_of, Frame};
use crate::utils::{has_char, is_first_index_of, split_at_first};

verus! {

/// A connected peer's identity: the user-supplied display name together
/// with the tripcode derived from its passphrase. Equality is by the
/// combined rendered value `<name>!<tripcode>`: two identities are the same
/// peer only if both parts match. An identity is constructed exactly once
/// per connection, during the handshake, and never mutated afterward.
#[derive(Debug)]
pub struct Username {
    pub username: String,
    pub tripcode: String,
}

/// Whether two identities name the same peer: both the display name and the
/// tripcode agree.
pub open spec fn identity_eq(a: Username, b: Username) -> bool {
    a.username@ == b.username@ && a.tripcode@ == b.tripcode@
}

/// The combined rendered identity, `<name>!<tripcode>`.
pub open spec fn rendered_of(u: Username) -> Seq<char> {
    u.username@ + "!"@ + u.tripcode@
}

impl Username {
    /// Builds the identity for a display name, deriving the tripcode from
    /// the passphrase; a derivation failure maps to handshake rejection.
    pub fn from_parts(username: &str, password: &str) -> (r: Result<Username, UsernameError>)
        ensures
            r matches Ok(u) ==> u.username@ == username@ && u.tripcode@ == tripcode_of(password@),
            r matches Err(e) ==> e == UsernameError::GenTripcodeFailure,
    {
        match Tripcode::try_from(password) {
            Ok(t) => Ok(Username { username: username.to_owned(), tripcode: t.text }),
            Err(_) => Err(UsernameError::GenTripcodeFailure),
        }
    }

    /// The handshake: interprets the first frame read from a new connection,
    /// whose text must be `<display-name>,<passphrase>`, split at the first
    /// comma. `None` stands for a stream that ended before any frame
    /// arrived. Every failure leaves the caller with no identity and no
    /// registry mutation.
    pub fn from_frame(frame: Option<Frame>) -> (r: Result<Username, UsernameError>)
        ensures
            frame is None ==> (r matches Err(e) && e == UsernameError::NoData),
            frame matches Some(f) ==> {
                &&& !has_char(text_of(f), ',') ==> (r matches Err(e) && e
                    == UsernameError::ParseFailure)
                &&& has_char(text_of(f), ',') ==> {
                    &&& r matches Ok(u) ==> exists|i: int|
                        is_first_index_of(text_of(f), ',', i) && u.username@ == text_of(
                            f,
                        ).subrange(0, i) && u.tripcode@ == tripcode_of(
                            text_of(f).subrange(i + 1, text_of(f).len() as int),
                        )
                    &&& r matches Err(e) ==> e == UsernameError::GenTripcodeFailure
                }
            },
    {
        let f = match frame {
            Some(f) => f,
            None => {
                return Err(UsernameError::NoData);
            },
        };
        let message = f.message();
        match split_at_first(message.as_str(), ',') {
            Some((name, password)) => Username::from_parts(name.as_str(), password.as_str()),
            None => Err(UsernameError::ParseFailure),
        }
    }

    /// The combined rendered identity, `<name>!<tripcode>`.
    pub fn rendered(&self) -> (r: String)
        ensures
            r@ == rendered_of(*self),
    {
        let mut r = self.username.clone();
        r.append("!");
        r.append(self.tripcode.as_str());
        r
    }
}

impl Clone for Username {
    /// A clone is equal to the original identity.
    fn clone(&self) -> (r: Self)
        ensures
            r == *self,
    {
        Username { username: self.username.clone(), tripcode: self.tripcode.clone() }
    }
}

impl PartialEq for Username {
    fn eq(&self, other: &Username) -> bool {
        self.username == other.username && self.tripcode == other.tripcode
    }
}

impl vstd::std_specs::cmp::PartialEqSpecImpl for Username {
    open spec fn obeys_eq_spec() -> bool {
        true
    }

    open spec fn eq_spec(&self, other: &Username) -> bool {
        identity_eq(*self, *other)
    }
}

} // verus!
