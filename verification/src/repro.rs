//! Reproducibility verification: independent builds of one release must yield
//! one and the same artifact.

use crate::build_error::BuildError;
use crate::text::{decimal_string, decimal_text};
use vstd::prelude::*;
use vstd::string::*;

verus! {

/// What one successful build attempt produced.
#[derive(Debug, Clone)]
pub struct BuildArtifact {
    /// The attempt that produced the artifact.
    pub attempt_id: u64,
    /// Where the artifact is stored.
    pub artifact_ref: String,
    /// Canonical hash of the artifact.
    pub hash: String,
    /// Size of the artifact in bytes.
    pub size: u64,
    /// The leading bytes of the artifact.
    pub header: Vec<u8>,
}

/// The plain content of an artifact record.
pub struct BuildArtifactView {
    pub attempt_id: u64,
    pub artifact_ref: Seq<char>,
    pub hash: Seq<char>,
    pub size: u64,
    pub header: Seq<u8>,
}

impl View for BuildArtifact {
    type V = BuildArtifactView;

    open spec fn view(&self) -> BuildArtifactView {
        BuildArtifactView {
            attempt_id: self.attempt_id,
            artifact_ref: self.artifact_ref@,
            hash: self.hash@,
            size: self.size,
            header: self.header@,
        }
    }
}

/// The bytes begin with the local file header signature of a ZIP archive,
/// the container format of an Android package.
pub open spec fn is_archive_header(header: Seq<u8>) -> bool {
    &&& header.len() >= 4
    &&& header[0] == 0x50
    &&& header[1] == 0x4b
    &&& header[2] == 0x03
    &&& header[3] == 0x04
}

impl BuildArtifact {
    /// An artifact is structurally sane when it is not empty and has the
    /// expected archive format.
    pub open spec fn is_sane(&self) -> bool {
        self.size > 0 && is_archive_header(self.header@)
    }

    /// Copies the record.
    pub fn duplicate(&self) -> (copy: BuildArtifact)
        ensures
            copy@ == self@,
    {
        let header = self.header.clone();
        assert(header@ =~= self.header@);
        BuildArtifact {
            attempt_id: self.attempt_id,
            artifact_ref: self.artifact_ref.clone(),
            hash: self.hash.clone(),
            size: self.size,
            header,
        }
    }

    /// Checks structural sanity.
    pub fn check_sane(&self) -> (ok: bool)
        ensures
            ok == self.is_sane(),
    {
        self.size > 0 && self.header.len() >= 4 && self.header[0] == 0x50 && self.header[1]
            == 0x4b && self.header[2] == 0x03 && self.header[3] == 0x04
    }
}

/// Every artifact before position `end` is structurally sane.
pub open spec fn sane_up_to(artifacts: Seq<BuildArtifact>, end: int) -> bool {
    forall|i: int| 0 <= i < end ==> (#[trigger] artifacts[i]).is_sane()
}

/// Every artifact before position `end` has the hash of the first one.
pub open spec fn agree_up_to(artifacts: Seq<BuildArtifact>, end: int) -> bool {
    forall|i: int| 0 <= i < end ==> (#[trigger] artifacts[i]).hash@ == artifacts[0].hash@
}

/// Every artifact is structurally sane.
pub open spec fn all_sane(artifacts: Seq<BuildArtifact>) -> bool {
    sane_up_to(artifacts, artifacts.len() as int)
}

/// All artifacts carry exactly the same hash.
pub open spec fn hashes_agree(artifacts: Seq<BuildArtifact>) -> bool {
    agree_up_to(artifacts, artifacts.len() as int)
}

/// The detail reported for a malformed artifact.
pub open spec fn malformed_text(attempt_id: u64) -> Seq<char> {
    "empty or malformed artifact from attempt "@ + decimal_text(attempt_id as nat)
}

/// The outcome of verification, as a function of the artifacts:
/// - no artifact, or one that is not sane, is a build failure, and the detail
///   names the first artifact that is not sane;
/// - sane artifacts that disagree on the hash fail reproducibility;
/// - otherwise the agreed hash is returned.
pub open spec fn verification_holds(
    artifacts: Seq<BuildArtifact>,
    result: Result<String, BuildError>,
) -> bool {
    match result {
        Ok(hash) => {
            &&& artifacts.len() > 0
            &&& all_sane(artifacts)
            &&& hashes_agree(artifacts)
            &&& hash@ == artifacts[0].hash@
        },
        Err(BuildError::ReproducibilityFailed) => {
            &&& artifacts.len() > 0
            &&& all_sane(artifacts)
            &&& !hashes_agree(artifacts)
        },
        Err(BuildError::BuildFailed(detail)) => {
            if artifacts.len() == 0 {
                detail@ == "no build artifacts"@
            } else {
                exists|i: int|
                    {
                        &&& 0 <= i < artifacts.len()
                        &&& sane_up_to(artifacts, i)
                        &&& !(#[trigger] artifacts[i]).is_sane()
                        &&& detail@ == malformed_text(artifacts[i].attempt_id)
                    }
            }
        },
        Err(_) => false,
    }
}

/// Verifies that the given build artifacts reproduce one another.
///
/// Each artifact is first checked for structural sanity; an artifact that is
/// empty or malformed makes the whole verification a build failure and is
/// never compared. Sane artifacts must then agree exactly on their hash.
pub fn verify_reproducibility(artifacts: &Vec<BuildArtifact>) -> (result: Result<
    String,
    BuildError,
>)
    ensures
        verification_holds(artifacts@, result),
{
    if artifacts.len() == 0 {
        return Err(BuildError::BuildFailed(String::from_str("no build artifacts")));
    }
    let mut i: usize = 0;
    while i < artifacts.len()
        invariant
            i <= artifacts.len(),
            sane_up_to(artifacts@, i as int),
        decreases artifacts.len() - i,
    {
        if !artifacts[i].check_sane() {
            let digits = decimal_string(artifacts[i].attempt_id);
            let detail = String::from_str("empty or malformed artifact from attempt ").concat(
                digits.as_str(),
            );
            return Err(BuildError::BuildFailed(detail));
        }
        i = i + 1;
    }
    let mut k: usize = 1;
    while k < artifacts.len()
        invariant
            1 <= k <= artifacts.len(),
            all_sane(artifacts@),
            agree_up_to(artifacts@, k as int),
        decreases artifacts.len() - k,
    {
        if !(artifacts[k].hash == artifacts[0].hash) {
            return Err(BuildError::ReproducibilityFailed);
        }
        k = k + 1;
    }
    Ok(artifacts[0].hash.clone())
}

/// Artifacts that do not all carry one hash are never verified: the result is
/// an error, and when every artifact is sane it is `ReproducibilityFailed`.
pub proof fn lemma_disagreement_fails(
    artifacts: Seq<BuildArtifact>,
    result: Result<String, BuildError>,
    i: int,
    j: int,
)
    requires
        verification_holds(artifacts, result),
        0 <= i < artifacts.len(),
        0 <= j < artifacts.len(),
        artifacts[i].hash@ != artifacts[j].hash@,
    ensures
        result is Err,
        all_sane(artifacts) ==> result == Err::<String, BuildError>(
            BuildError::ReproducibilityFailed,
        ),
{
    if hashes_agree(artifacts) {
        assert(artifacts[i].hash@ == artifacts[0].hash@);
        assert(artifacts[j].hash@ == artifacts[0].hash@);
    }
    if all_sane(artifacts) {
        match result {
            Err(BuildError::BuildFailed(detail)) => {
                let w = choose|w: int|
                    {
                        &&& 0 <= w < artifacts.len()
                        &&& sane_up_to(artifacts, w)
                        &&& !(#[trigger] artifacts[w]).is_sane()
                        &&& detail@ == malformed_text(artifacts[w].attempt_id)
                    };
                assert(artifacts[w].is_sane());
            },
            _ => {},
        }
    }
}

} // verus!
