//! One instance at a time: what the attempt to take the system-wide mutex
//! means, and what a second instance and the first say to each other.

use vstd::prelude::*;

verus! {

/// The name of the mutex that the first instance holds.
pub const MUTEX_NAME: &'static str = "Global\\SigilSingleInstanceMutex";

/// The address at which the first instance listens for a second.
pub const IPC_ADDRESS: &'static str = "127.0.0.1:14201";

/// What came of the attempt to create the mutex of the first instance.
#[derive(Debug, Clone, Copy, PartialEq, Eq, Structural)]
pub enum MutexAttempt {
    /// The mutex was created: this is the first instance.
    Created,
    /// The mutex exists already.
    AlreadyExists,
    /// The mutex could not be created.
    Failed,
}

/// Whether another instance runs already, by what came of the attempt to
/// create the mutex: it does unless the mutex was created. A failure counts
/// as another instance.
pub fn instance_exists(attempt: MutexAttempt) -> (r: bool)
    ensures
        r == (attempt != MutexAttempt::Created),
{
    match attempt {
        MutexAttempt::Created => false,
        _ => true,
    }
}

/// The bytes that a second instance sends to the first: `activate`.
pub open spec fn activation_request() -> Seq<u8> {
    seq![0x61u8, 0x63u8, 0x74u8, 0x69u8, 0x76u8, 0x61u8, 0x74u8, 0x65u8]
}

/// The bytes that a second instance sends to the first: `activate`.
pub fn activation_message() -> (r: [u8; 8])
    ensures
        r@ == activation_request(),
{
    let r: [u8; 8] = [0x61, 0x63, 0x74, 0x69, 0x76, 0x61, 0x74, 0x65];
    assert(r@ =~= activation_request());
    r
}

/// Whether the bytes that the first instance received ask it to show its
/// window: exactly when they are the activation request.
pub fn is_activation_request(received: &[u8; 8]) -> (r: bool)
    ensures
        r == (received@ == activation_request()),
{
    let expected = activation_message();
    let mut i: usize = 0;
    while i < 8
        invariant
            i <= 8,
            expected@ == activation_request(),
            forall|k: int| 0 <= k < i ==> received@[k] == expected@[k],
        decreases 8 - i,
    {
        if received[i] != expected[i] {
            return false;
        }
        i += 1;
    }
    assert(received@ =~= expected@);
    true
}

/// The bytes with which the first instance answers an activation request:
/// `ok`.
pub fn activation_reply() -> (r: [u8; 2])
    ensures
        r@ == seq![0x6Fu8, 0x6Bu8],
{
    let r: [u8; 2] = [0x6F, 0x6B];
    assert(r@ =~= seq![0x6Fu8, 0x6Bu8]);
    r
}

/// What came of a second instance's attempt to reach the first.
#[derive(Debug, Clone, Copy, PartialEq, Eq, Structural)]
pub enum ActivationAttempt {
    /// The first instance could not be reached; it may not listen yet.
    Unreachable,
    /// The first instance was reached and the request could not be sent.
    SendFailed,
    /// The request was sent.
    Sent,
}

/// Whether the second instance may take the first as activated: unless
/// the request could not be sent over an open connection.
pub fn activation_succeeded(attempt: ActivationAttempt) -> (r: bool)
    ensures
        r == (attempt != ActivationAttempt::SendFailed),
{
    match attempt {
        ActivationAttempt::SendFailed => false,
        _ => true,
    }
}

/// The check for another instance on a platform without a system-wide
/// mutex: there is never another, and this instance holds a token in place
/// of the mutex.
pub fn check_single_instance() -> (r: (bool, Option<()>))
    ensures
        r == (false, Some(())),
{
    (false, Some(()))
}

/// The activation of another instance on a platform without a system-wide
/// mutex: nothing is activated.
pub fn activate_existing_instance() -> (r: bool)
    ensures
        !r,
{
    false
}

/// Gives back the token that stands in place of the mutex: there is
/// nothing to release.
pub fn release_mutex(_mutex: ()) {
}

} // verus!
