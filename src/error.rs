use vstd::prelude::*;
use vstd::string::StringExecFns;

verus! {

/// The operating system's error value, carried through unread.
#[verifier::external_type_specification]
#[verifier::external_body]
pub struct ExIoError(std::io::Error);

/// Why an exchange failed: one tag per kind of failure, each wrapping the
/// operating system's error where there is one.
#[derive(Debug)]
pub enum Error {
    /// The local endpoint could not be created.
    BindFailed(std::io::Error),
    /// The outgoing datagram was refused or could not be handed over.
    SendFailed(std::io::Error),
    /// Waiting for or reading the reply failed for a reason other than time.
    ReceiveFailed(std::io::Error),
    /// No reply arrived within the configured duration.
    TimeoutReached,
}

impl Error {
    /// The fixed text that opens the message of this error; for
    /// `TimeoutReached` it is the whole message.
    pub open spec fn message_prefix(&self) -> Seq<char> {
        match self {
            Error::BindFailed(_) => "failed to bind socket: "@,
            Error::SendFailed(_) => "failed to send message: "@,
            Error::ReceiveFailed(_) => "failed to receive message: "@,
            Error::TimeoutReached => "timeout reached while waiting for response"@,
        }
    }

    /// A human-readable message: the fixed text of the kind, followed, where
    /// an operating system error is wrapped, by that error's own text.
    pub fn message(&self) -> (r: String)
        ensures
            r@.len() >= self.message_prefix().len(),
            r@.subrange(0, self.message_prefix().len() as int) == self.message_prefix(),
            self is TimeoutReached ==> r@ == self.message_prefix(),
            self matches Error::BindFailed(e) ==> exists|t: String|
                vstd::string::to_string_from_display_ensures::<std::io::Error>(&e, t) && r@
                    == self.message_prefix() + t@,
            self matches Error::SendFailed(e) ==> exists|t: String|
                vstd::string::to_string_from_display_ensures::<std::io::Error>(&e, t) && r@
                    == self.message_prefix() + t@,
            self matches Error::ReceiveFailed(e) ==> exists|t: String|
                vstd::string::to_string_from_display_ensures::<std::io::Error>(&e, t) && r@
                    == self.message_prefix() + t@,
    {
        let (prefix, source) = match self {
            Error::BindFailed(e) => ("failed to bind socket: ", Some(e)),
            Error::SendFailed(e) => ("failed to send message: ", Some(e)),
            Error::ReceiveFailed(e) => ("failed to receive message: ", Some(e)),
            Error::TimeoutReached => ("timeout reached while waiting for response", None),
        };
        let mut r = String::from_str(prefix);
        if let Some(e) = source {
            let text = e.to_string();
            r.append(text.as_str());
        }
        assert(r@.subrange(0, prefix@.len() as int) =~= prefix@);
        r
    }
}

} // verus!
