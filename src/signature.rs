//! Detached-signature checking. The outside verification tool is run by the
//! caller; this module reads its diagnostics and decides what happens next:
//! accept, fetch the public key from a keyserver and try once more, or reject.
use vstd::prelude::*;
use crate::text::{contains_seq, contains_text};

verus! {

/// What one run of the signature tool reported.
#[derive(Debug, Clone, Copy, PartialEq, Eq, Structural)]
pub enum VerifyOutcome {
    /// The tool printed its good-signature marker and exited successfully.
    Good,
    /// The tool did not know the signing key.
    MissingKey,
    /// Any other failure.
    Failed,
}

/// Why a signature was not accepted.
#[derive(Debug, Clone, Copy, PartialEq, Eq, Structural)]
pub enum SignatureError {
    /// The signing key could be fetched from neither keyserver.
    KeyImportFailed,
    /// The signature did not verify.
    VerificationFailed,
}

/// The keyservers that the signing key is fetched from, in order.
#[derive(Debug, Clone, Copy, PartialEq, Eq, Structural)]
pub enum Keyserver {
    Primary,
    Secondary,
}

impl Keyserver {
    /// The host name of the keyserver.
    pub fn host(&self) -> (r: &'static str)
        ensures
            *self == Keyserver::Primary ==> r@ == "keyserver.ubuntu.com"@,
            *self == Keyserver::Secondary ==> r@ == "keys.openpgp.org"@,
    {
        match self {
            Keyserver::Primary => "keyserver.ubuntu.com",
            Keyserver::Secondary => "keys.openpgp.org",
        }
    }
}

/// The marker the signature tool prints for a good signature.
pub open spec fn good_marker() -> Seq<char> {
    "Good signature"@
}

/// The diagnostic the signature tool prints when it lacks the public key.
pub open spec fn missing_key_marker() -> Seq<char> {
    "No public key"@
}

/// How a run of the signature tool is read from its exit status and output.
pub open spec fn classify_spec(success: bool, output: Seq<char>) -> VerifyOutcome {
    if success && contains_seq(output, good_marker()) {
        VerifyOutcome::Good
    } else if contains_seq(output, missing_key_marker()) {
        VerifyOutcome::MissingKey
    } else {
        VerifyOutcome::Failed
    }
}

/// Reads a run of the signature tool: good only with a successful exit and
/// the good-signature marker; a missing key where the tool says it lacks the
/// public key; otherwise a failure.
pub fn classify_verification(success: bool, output: &str) -> (r: VerifyOutcome)
    ensures
        r == classify_spec(success, output@),
{
    if success && contains_text(output, "Good signature") {
        VerifyOutcome::Good
    } else if contains_text(output, "No public key") {
        VerifyOutcome::MissingKey
    } else {
        VerifyOutcome::Failed
    }
}

/// Where a signature check stands.
#[derive(Debug, Clone, Copy, PartialEq, Eq, Structural)]
pub enum SignaturePhase {
    /// The first run of the tool is awaited.
    Verifying,
    /// The key import from the primary keyserver is awaited.
    ImportingPrimary,
    /// The key import from the secondary keyserver is awaited.
    ImportingSecondary,
    /// The single run after a key import is awaited.
    Reverifying,
    Accepted,
    Rejected(SignatureError),
}

/// What the caller reports back.
#[derive(Debug, Clone, Copy, PartialEq, Eq, Structural)]
pub enum SignatureEvent {
    Verification(VerifyOutcome),
    /// Whether the key import succeeded.
    KeyImport(bool),
}

/// What the caller is to do next.
#[derive(Debug, Clone, Copy, PartialEq, Eq, Structural)]
pub enum SignatureStep {
    RunVerification,
    ImportKey(Keyserver),
    Accept,
    Reject(SignatureError),
}

/// The step that a phase waits on.
pub open spec fn pending_step(p: SignaturePhase) -> SignatureStep {
    match p {
        SignaturePhase::Verifying => SignatureStep::RunVerification,
        SignaturePhase::ImportingPrimary => SignatureStep::ImportKey(Keyserver::Primary),
        SignaturePhase::ImportingSecondary => SignatureStep::ImportKey(Keyserver::Secondary),
        SignaturePhase::Reverifying => SignatureStep::RunVerification,
        SignaturePhase::Accepted => SignatureStep::Accept,
        SignaturePhase::Rejected(e) => SignatureStep::Reject(e),
    }
}

/// The signature check as a state machine. A missing key leads to an import
/// from the primary keyserver, then from the secondary one; after a
/// successful import the tool runs exactly once more. Failures that are not
/// a missing key are final. An event that does not answer the pending step
/// changes nothing.
pub open spec fn signature_transition(p: SignaturePhase, e: SignatureEvent) -> SignaturePhase {
    match (p, e) {
        (SignaturePhase::Verifying, SignatureEvent::Verification(VerifyOutcome::Good)) => SignaturePhase::Accepted,
        (SignaturePhase::Verifying, SignatureEvent::Verification(VerifyOutcome::MissingKey)) => SignaturePhase::ImportingPrimary,
        (SignaturePhase::Verifying, SignatureEvent::Verification(VerifyOutcome::Failed)) => SignaturePhase::Rejected(
            SignatureError::VerificationFailed,
        ),
        (SignaturePhase::ImportingPrimary, SignatureEvent::KeyImport(true)) => SignaturePhase::Reverifying,
        (SignaturePhase::ImportingPrimary, SignatureEvent::KeyImport(false)) => SignaturePhase::ImportingSecondary,
        (SignaturePhase::ImportingSecondary, SignatureEvent::KeyImport(true)) => SignaturePhase::Reverifying,
        (SignaturePhase::ImportingSecondary, SignatureEvent::KeyImport(false)) => SignaturePhase::Rejected(
            SignatureError::KeyImportFailed,
        ),
        (SignaturePhase::Reverifying, SignatureEvent::Verification(VerifyOutcome::Good)) => SignaturePhase::Accepted,
        (SignaturePhase::Reverifying, SignatureEvent::Verification(_)) => SignaturePhase::Rejected(
            SignatureError::VerificationFailed,
        ),
        _ => p,
    }
}

/// The phase in which a signature check starts; its pending step is a run of
/// the tool.
pub fn start_signature_check() -> (r: SignaturePhase)
    ensures
        r == SignaturePhase::Verifying,
        pending_step(r) == SignatureStep::RunVerification,
{
    SignaturePhase::Verifying
}

/// The step that a phase waits on.
pub fn step_of(p: SignaturePhase) -> (r: SignatureStep)
    ensures
        r == pending_step(p),
{
    match p {
        SignaturePhase::Verifying => SignatureStep::RunVerification,
        SignaturePhase::ImportingPrimary => SignatureStep::ImportKey(Keyserver::Primary),
        SignaturePhase::ImportingSecondary => SignatureStep::ImportKey(Keyserver::Secondary),
        SignaturePhase::Reverifying => SignatureStep::RunVerification,
        SignaturePhase::Accepted => SignatureStep::Accept,
        SignaturePhase::Rejected(e) => SignatureStep::Reject(e),
    }
}

/// Advances a signature check by one reported event and gives the next step.
pub fn advance_signature(p: SignaturePhase, e: SignatureEvent) -> (r: (SignaturePhase, SignatureStep))
    ensures
        r.0 == signature_transition(p, e),
        r.1 == pending_step(r.0),
{
    let next = match (p, e) {
        (SignaturePhase::Verifying, SignatureEvent::Verification(VerifyOutcome::Good)) => SignaturePhase::Accepted,
        (SignaturePhase::Verifying, SignatureEvent::Verification(VerifyOutcome::MissingKey)) => SignaturePhase::ImportingPrimary,
        (SignaturePhase::Verifying, SignatureEvent::Verification(VerifyOutcome::Failed)) => SignaturePhase::Rejected(
            SignatureError::VerificationFailed,
        ),
        (SignaturePhase::ImportingPrimary, SignatureEvent::KeyImport(true)) => SignaturePhase::Reverifying,
        (SignaturePhase::ImportingPrimary, SignatureEvent::KeyImport(false)) => SignaturePhase::ImportingSecondary,
        (SignaturePhase::ImportingSecondary, SignatureEvent::KeyImport(true)) => SignaturePhase::Reverifying,
        (SignaturePhase::ImportingSecondary, SignatureEvent::KeyImport(false)) => SignaturePhase::Rejected(
            SignatureError::KeyImportFailed,
        ),
        (SignaturePhase::Reverifying, SignatureEvent::Verification(VerifyOutcome::Good)) => SignaturePhase::Accepted,
        (SignaturePhase::Reverifying, SignatureEvent::Verification(_)) => SignaturePhase::Rejected(
            SignatureError::VerificationFailed,
        ),
        _ => p,
    };
    (next, step_of(next))
}

/// A missing key followed by two failed imports rejects the signature with
/// `KeyImportFailed`, whatever the tool would have said afterwards.
pub proof fn lemma_both_imports_fail_rejects()
    ensures
        ({
            let p1 = signature_transition(
                SignaturePhase::Verifying,
                SignatureEvent::Verification(VerifyOutcome::MissingKey),
            );
            let p2 = signature_transition(p1, SignatureEvent::KeyImport(false));
            let p3 = signature_transition(p2, SignatureEvent::KeyImport(false));
            p3 == SignaturePhase::Rejected(SignatureError::KeyImportFailed) && pending_step(p3)
                == SignatureStep::Reject(SignatureError::KeyImportFailed)
        }),
{
}

/// Once accepted or rejected, a signature check stays as it is.
pub proof fn lemma_final_phases_stay(p: SignaturePhase, e: SignatureEvent)
    requires
        p == SignaturePhase::Accepted || p is Rejected,
    ensures
        signature_transition(p, e) == p,
{
}

/// After a key import the tool runs once more, and that run decides: a good
/// result accepts, any other rejects; there is no second import.
pub proof fn lemma_single_retry(o: VerifyOutcome)
    ensures
        signature_transition(SignaturePhase::Reverifying, SignatureEvent::Verification(o)) == if o
            == VerifyOutcome::Good {
            SignaturePhase::Accepted
        } else {
            SignaturePhase::Rejected(SignatureError::VerificationFailed)
        },
{
}

} // verus!
