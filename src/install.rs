//! The install sequence. For each resolved artifact, in order: download it,
//! download its detached signature, check the signature, check both digests,
//! extract the binary into the bin directory, and remove the temporary
//! files. The first failure ends the run after that cleanup; binaries
//! installed earlier in the run stay.
//!
//! The caller performs each action and reports its outcome as an event; the
//! installer decides what comes next.
use vstd::prelude::*;
use crate::manifest::ResolvedArtifact;
use crate::fetch::{FetchError, signature_url, signature_suffix};
use crate::signature::{
    SignatureError, SignatureEvent, SignaturePhase, SignatureStep, Keyserver, advance_signature,
    signature_transition, pending_step,
};
use crate::integrity::{
    ChecksumMismatch, verify_artifact, digest_check_spec, check_outcome, hex_spec, sha256_of, sha1_of,
};
use crate::extract::ExtractError;

verus! {

/// The failure that ended an artifact's processing.
#[derive(Debug)]
pub enum InstallFailure {
    Fetch(FetchError),
    Signature(SignatureError),
    Checksum(ChecksumMismatch),
    /// The downloaded artifact could not be read back.
    ReadFailed,
    Extract(ExtractError),
}

/// A failed run: the artifact it stopped at and why.
#[derive(Debug)]
pub struct InstallError {
    pub artifact: String,
    pub cause: InstallFailure,
}

/// Where the current artifact stands; each stage waits for the outcome of
/// the action it issued.
#[derive(Debug, Clone, Copy, PartialEq, Eq, Structural)]
pub enum Stage {
    FetchArtifact,
    FetchSignature,
    Signature(SignaturePhase),
    Digest,
    Extract,
    Cleanup,
    Finished,
}

/// The outcome of an action, as the caller reports it.
#[derive(Debug)]
pub enum InstallEvent {
    Fetched(Result<(), FetchError>),
    Signature(SignatureEvent),
    /// The downloaded artifact's bytes, or `None` where it could not be read.
    ArtifactRead(Option<Vec<u8>>),
    Extracted(Result<(), ExtractError>),
    Cleaned,
}

/// What the caller is to do next.
#[derive(Debug)]
pub enum InstallAction {
    /// Download `url` to a temporary file; `signature` tells the detached
    /// signature from the artifact.
    Download { url: String, signature: bool },
    RunSignatureCheck,
    ImportKey(Keyserver),
    /// Read the downloaded artifact and report its bytes.
    ReadArtifact,
    /// Extract the entry named `entry` into the bin directory as an
    /// executable file of that name.
    Extract { entry: String },
    /// Delete the temporary artifact and signature files.
    RemoveTemporaries,
    /// The run is over.
    Finish(Result<(), InstallError>),
    /// The event did not answer the pending action; nothing changed.
    Stray,
}

/// Runs the install sequence over a list of resolved artifacts.
pub struct Installer {
    pub artifacts: Vec<ResolvedArtifact>,
    /// The artifact being processed.
    pub current: usize,
    pub stage: Stage,
    /// The failure that the current cleanup precedes, if any.
    pub failure: Option<InstallFailure>,
    /// Temporary files of the current artifact may exist.
    pub temps_exist: bool,
    /// The current artifact's signature was accepted.
    pub signature_ok: bool,
    /// The current artifact's digests matched.
    pub digests_ok: bool,
    /// The bytes of each artifact handed out for extraction, in order.
    pub extracted: Ghost<Seq<Seq<u8>>>,
}

/// Whether bytes carry both digests that an artifact's manifest entry
/// expects.
pub open spec fn digests_match(a: ResolvedArtifact, bytes: Seq<u8>) -> bool {
    digest_check_spec(a.hash_strong@, a.hash_weak@, hex_spec(sha256_of(bytes)), hex_spec(sha1_of(bytes))) is None
}

/// Whether an event answers the action that a stage waits on.
pub open spec fn answers(stage: Stage, ev: InstallEvent) -> bool {
    match (stage, ev) {
        (Stage::FetchArtifact, InstallEvent::Fetched(_)) => true,
        (Stage::FetchSignature, InstallEvent::Fetched(_)) => true,
        (Stage::Signature(p), InstallEvent::Signature(_)) => p != SignaturePhase::Accepted && !(p is Rejected),
        (Stage::Digest, InstallEvent::ArtifactRead(_)) => true,
        (Stage::Extract, InstallEvent::Extracted(_)) => true,
        (Stage::Cleanup, InstallEvent::Cleaned) => true,
        _ => false,
    }
}

/// The installer action for a signature step that is still in progress.
pub open spec fn signature_action(s: SignatureStep, a: InstallAction) -> bool {
    match s {
        SignatureStep::RunVerification => a is RunSignatureCheck,
        SignatureStep::ImportKey(k) => a == InstallAction::ImportKey(k),
        _ => false,
    }
}

impl Installer {
    /// The installer's invariant.
    pub open spec fn wf(&self) -> bool {
        &&& if self.stage == Stage::Finished {
            self.current <= self.artifacts@.len() && !self.temps_exist
        } else {
            self.current < self.artifacts@.len() && self.temps_exist
        }
        &&& self.failure is Some ==> self.stage == Stage::Cleanup
        &&& (self.stage == Stage::Digest || self.stage == Stage::Extract) ==> self.signature_ok
        &&& self.stage == Stage::Extract ==> self.digests_ok
        &&& (self.stage == Stage::Cleanup && self.failure is None) ==> self.signature_ok && self.digests_ok
        &&& self.stage matches Stage::Signature(p) ==> p != SignaturePhase::Accepted && !(p is Rejected)
        &&& self.extracted@.len() <= self.artifacts@.len()
        &&& forall|k: int| 0 <= k < self.extracted@.len() ==> digests_match(self.artifacts@[k], #[trigger] self.extracted@[k])
        &&& self.stage != Stage::Finished ==> self.extracted@.len() == self.current + if self.digests_ok {
            1int
        } else {
            0int
        }
        &&& (self.stage == Stage::FetchArtifact || self.stage == Stage::FetchSignature || self.stage is Signature
            || self.stage == Stage::Digest) ==> !self.digests_ok
        &&& (self.failure matches Some(f) && !(f is Extract)) ==> !self.digests_ok
    }

    /// The artifact being processed.
    pub open spec fn artifact(&self) -> ResolvedArtifact {
        self.artifacts@[self.current as int]
    }

    /// Starts a run: the first artifact's download, or the end of the run
    /// where there is nothing to install.
    pub fn new(artifacts: Vec<ResolvedArtifact>) -> (r: (Installer, InstallAction))
        ensures
            r.0.wf(),
            r.0.artifacts@ == artifacts@,
            r.0.current == 0,
            artifacts@.len() == 0 ==> r.0.stage == Stage::Finished && r.1 matches InstallAction::Finish(Ok(_)),
            artifacts@.len() > 0 ==> r.0.stage == Stage::FetchArtifact && match r.1 {
                InstallAction::Download { url, signature } => !signature && url@ == artifacts@[0].url@,
                _ => false,
            },
    {
        if artifacts.len() == 0 {
            let inst = Installer {
                artifacts,
                current: 0,
                stage: Stage::Finished,
                failure: None,
                temps_exist: false,
                signature_ok: false,
                digests_ok: false,
                extracted: Ghost(Seq::empty()),
            };
            (inst, InstallAction::Finish(Ok(())))
        } else {
            let url = artifacts[0].url.clone();
            let inst = Installer {
                artifacts,
                current: 0,
                stage: Stage::FetchArtifact,
                failure: None,
                temps_exist: true,
                signature_ok: false,
                digests_ok: false,
                extracted: Ghost(Seq::empty()),
            };
            (inst, InstallAction::Download { url, signature: false })
        }
    }

    fn fail(&mut self, cause: InstallFailure) -> (r: InstallAction)
        requires
            old(self).current < old(self).artifacts@.len(),
            old(self).temps_exist,
        ensures
            r is RemoveTemporaries,
            final(self).stage == Stage::Cleanup,
            final(self).failure == Some(cause),
            final(self).artifacts == old(self).artifacts,
            final(self).current == old(self).current,
            final(self).temps_exist,
            final(self).signature_ok == old(self).signature_ok,
            final(self).digests_ok == old(self).digests_ok,
            final(self).extracted == old(self).extracted,
    {
        self.stage = Stage::Cleanup;
        self.failure = Some(cause);
        InstallAction::RemoveTemporaries
    }

    /// Takes the outcome of the pending action and gives the next action.
    pub fn step(&mut self, ev: InstallEvent) -> (r: InstallAction)
        requires
            old(self).wf(),
        ensures
            final(self).wf(),
            final(self).artifacts@ == old(self).artifacts@,
            !answers(old(self).stage, ev) ==> *final(self) == *old(self) && r is Stray,
            // downloads
            old(self).stage == Stage::FetchArtifact ==> (ev matches InstallEvent::Fetched(Ok(_)) ==> final(self).stage
                == Stage::FetchSignature && match r {
                InstallAction::Download { url, signature } => signature && url@ == old(self).artifact().url@
                    + signature_suffix(),
                _ => false,
            }),
            old(self).stage == Stage::FetchSignature ==> (ev matches InstallEvent::Fetched(Ok(_)) ==> final(self).stage
                == Stage::Signature(SignaturePhase::Verifying) && r is RunSignatureCheck),
            (old(self).stage == Stage::FetchArtifact || old(self).stage == Stage::FetchSignature) ==> (
            ev matches InstallEvent::Fetched(Err(e)) ==> final(self).stage == Stage::Cleanup && final(self).failure
                == Some(InstallFailure::Fetch(e)) && r is RemoveTemporaries),
            // signature
            old(self).stage matches Stage::Signature(p) ==> (ev matches InstallEvent::Signature(se) ==> match signature_transition(p, se) {
                SignaturePhase::Accepted => final(self).stage == Stage::Digest && final(self).signature_ok
                    && r is ReadArtifact,
                SignaturePhase::Rejected(e) => final(self).stage == Stage::Cleanup && final(self).failure
                    == Some(InstallFailure::Signature(e)) && r is RemoveTemporaries,
                q => final(self).stage == Stage::Signature(q) && signature_action(pending_step(q), r),
            }),
            // digests
            old(self).stage == Stage::Digest ==> (ev matches InstallEvent::ArtifactRead(Some(b)) ==> match digest_check_spec(
                old(self).artifact().hash_strong@,
                old(self).artifact().hash_weak@,
                hex_spec(sha256_of(b@)),
                hex_spec(sha1_of(b@)),
            ) {
                None => final(self).stage == Stage::Extract && final(self).digests_ok && match r {
                    InstallAction::Extract { entry } => entry@ == old(self).artifact().name@,
                    _ => false,
                },
                Some(m) => final(self).stage == Stage::Cleanup && r is RemoveTemporaries && match final(self).failure {
                    Some(InstallFailure::Checksum(c)) => check_outcome(Err(c)) == Some(m),
                    _ => false,
                },
            }),
            old(self).stage == Stage::Digest ==> (ev matches InstallEvent::ArtifactRead(None) ==> final(self).stage
                == Stage::Cleanup && r is RemoveTemporaries && (final(self).failure matches Some(
                InstallFailure::ReadFailed,
            ))),
            // extraction
            old(self).stage == Stage::Extract ==> (ev matches InstallEvent::Extracted(Ok(_)) ==> final(self).stage
                == Stage::Cleanup && final(self).failure is None && r is RemoveTemporaries),
            old(self).stage == Stage::Extract ==> (ev matches InstallEvent::Extracted(Err(e)) ==> final(self).stage
                == Stage::Cleanup && final(self).failure == Some(InstallFailure::Extract(e))
                && r is RemoveTemporaries),
            // cleanup
            old(self).stage == Stage::Cleanup && ev is Cleaned ==> (match old(self).failure {
                Some(f) => final(self).stage == Stage::Finished && match r {
                    InstallAction::Finish(Err(e)) => e.artifact@ == old(self).artifact().name@ && e.cause == f,
                    _ => false,
                },
                None => if old(self).current + 1 < old(self).artifacts@.len() {
                    final(self).current == old(self).current + 1 && final(self).stage == Stage::FetchArtifact
                        && !final(self).signature_ok && !final(self).digests_ok && match r {
                        InstallAction::Download { url, signature } => !signature && url@ == final(self).artifact().url@,
                        _ => false,
                    }
                } else {
                    final(self).stage == Stage::Finished && final(self).current == old(self).artifacts@.len()
                        && r matches InstallAction::Finish(Ok(_))
                },
            }),
            // a run ends only after its temporary files are gone
            r is Finish ==> old(self).stage == Stage::Cleanup && !final(self).temps_exist,
            // a binary is extracted only after both checks passed
            r is Extract ==> final(self).signature_ok && final(self).digests_ok,
            // the history of extractions only grows, one artifact per extraction
            old(self).extracted@.len() <= final(self).extracted@.len(),
            final(self).extracted@.subrange(0, old(self).extracted@.len() as int) == old(self).extracted@,
            !(r is Extract) ==> final(self).extracted@ == old(self).extracted@,
            r matches InstallAction::Extract { entry } ==> final(self).extracted@.len() == final(self).current + 1
                && entry@ == final(self).artifact().name@,
            // a successful run extracted every artifact, each from bytes with
            // both expected digests (see `wf`)
            r matches InstallAction::Finish(Ok(_)) ==> final(self).extracted@.len() == final(self).artifacts@.len(),
            // a run that fails before extraction never extracted the failing
            // artifact
            r matches InstallAction::Finish(Err(e)) ==> (!(e.cause is Extract) ==> final(self).extracted@.len()
                == final(self).current && e.artifact@ == final(self).artifact().name@),
    {
        let stage = self.stage;
        assert(self.extracted@.subrange(0, self.extracted@.len() as int) =~= self.extracted@);
        match (stage, ev) {
            (Stage::FetchArtifact, InstallEvent::Fetched(Ok(_))) => {
                self.stage = Stage::FetchSignature;
                let url = signature_url(self.artifacts[self.current].url.as_str());
                InstallAction::Download { url, signature: true }
            },
            (Stage::FetchSignature, InstallEvent::Fetched(Ok(_))) => {
                self.stage = Stage::Signature(SignaturePhase::Verifying);
                InstallAction::RunSignatureCheck
            },
            (Stage::FetchArtifact, InstallEvent::Fetched(Err(e))) => self.fail(InstallFailure::Fetch(e)),
            (Stage::FetchSignature, InstallEvent::Fetched(Err(e))) => self.fail(InstallFailure::Fetch(e)),
            (Stage::Signature(p), InstallEvent::Signature(se)) => {
                if p == SignaturePhase::Accepted || matches!(p, SignaturePhase::Rejected(_)) {
                    return InstallAction::Stray;
                }
                let (q, s) = advance_signature(p, se);
                match s {
                    SignatureStep::Accept => {
                        self.stage = Stage::Digest;
                        self.signature_ok = true;
                        InstallAction::ReadArtifact
                    },
                    SignatureStep::Reject(e) => self.fail(InstallFailure::Signature(e)),
                    SignatureStep::RunVerification => {
                        self.stage = Stage::Signature(q);
                        InstallAction::RunSignatureCheck
                    },
                    SignatureStep::ImportKey(k) => {
                        self.stage = Stage::Signature(q);
                        InstallAction::ImportKey(k)
                    },
                }
            },
            (Stage::Digest, InstallEvent::ArtifactRead(Some(bytes))) => {
                let art = &self.artifacts[self.current];
                match verify_artifact(&bytes, art.hash_strong.as_str(), art.hash_weak.as_str()) {
                    Ok(()) => {
                        let entry = art.name.clone();
                        self.stage = Stage::Extract;
                        self.digests_ok = true;
                        let ghost before = self.extracted@;
                        self.extracted = Ghost(self.extracted@.push(bytes@));
                        assert(self.extracted@.subrange(0, before.len() as int) =~= before);
                        InstallAction::Extract { entry }
                    },
                    Err(m) => self.fail(InstallFailure::Checksum(m)),
                }
            },
            (Stage::Digest, InstallEvent::ArtifactRead(None)) => self.fail(InstallFailure::ReadFailed),
            (Stage::Extract, InstallEvent::Extracted(Ok(_))) => {
                self.stage = Stage::Cleanup;
                InstallAction::RemoveTemporaries
            },
            (Stage::Extract, InstallEvent::Extracted(Err(e))) => self.fail(InstallFailure::Extract(e)),
            (Stage::Cleanup, InstallEvent::Cleaned) => {
                self.temps_exist = false;
                match self.failure.take() {
                    Some(f) => {
                        self.stage = Stage::Finished;
                        let artifact = self.artifacts[self.current].name.clone();
                        InstallAction::Finish(Err(InstallError { artifact, cause: f }))
                    },
                    None => {
                        if self.current < self.artifacts.len() - 1 {
                            self.current = self.current + 1;
                            self.stage = Stage::FetchArtifact;
                            self.temps_exist = true;
                            self.signature_ok = false;
                            self.digests_ok = false;
                            let url = self.artifacts[self.current].url.clone();
                            InstallAction::Download { url, signature: false }
                        } else {
                            self.current = self.artifacts.len();
                            self.stage = Stage::Finished;
                            InstallAction::Finish(Ok(()))
                        }
                    },
                }
            },
            _ => InstallAction::Stray,
        }
    }
}

} // verus!
