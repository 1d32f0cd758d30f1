use vstd::prelude::*;
use vstd::string::StringSliceAdditionalSpecFns;

verus! {

/// The `CSR_ALLOW_UNRESTRICTED_FS` bit of the active SIP configuration: set
/// when filesystem protections are switched off.
pub const CSR_ALLOW_UNRESTRICTED_FS: u32 = 2;

/// Whether bit 1 of a configuration word is clear.
pub open spec fn unrestricted_fs_bit_clear(config: u32) -> bool {
    (config as int / 2) % 2 == 0
}

/// Whether a SIP configuration word leaves filesystem protections on.
pub fn protections_enabled_in_config(config: u32) -> (r: bool)
    ensures
        r == unrestricted_fs_bit_clear(config),
{
    let masked: u32 = config & CSR_ALLOW_UNRESTRICTED_FS;
    assert(masked == 0 <==> (config / 2) % 2 == 0) by (bit_vector)
        requires
            masked == config & 2u32,
    ;
    masked == 0
}

/// Verdict of the private-symbol probe from what `csr_get_active_config`
/// reported: its status code and the configuration word it wrote.
pub open spec fn csr_verdict(status: i32, config: u32) -> Option<bool> {
    if status == 0 {
        Some(unrestricted_fs_bit_clear(config))
    } else {
        None
    }
}

/// Decides the private-symbol probe: a nonzero status code is indeterminate,
/// otherwise protections are on exactly when the unrestricted-filesystem bit
/// is clear.
pub fn sip_from_csr_config(status: i32, config: u32) -> (r: Option<bool>)
    ensures
        r == csr_verdict(status, config),
{
    if status != 0 {
        None
    } else {
        Some(protections_enabled_in_config(config))
    }
}

/// Whether `phrase` occurs as a contiguous run somewhere in `text`.
pub open spec fn mentions(text: Seq<u8>, phrase: Seq<u8>) -> bool {
    exists|i: int|
        0 <= i && i + phrase.len() <= text.len() && #[trigger] text.subrange(i, i + phrase.len())
            == phrase
}

/// Whether `phrase` occurs in `text` starting at `at`.
pub open spec fn occurs_at(text: Seq<u8>, phrase: Seq<u8>, at: int) -> bool {
    0 <= at && at + phrase.len() <= text.len() && text.subrange(at, at + phrase.len()) == phrase
}

fn occurs_at_exec(text: &[u8], phrase: &[u8], at: usize) -> (r: bool)
    requires
        at + phrase@.len() <= text@.len(),
    ensures
        r == occurs_at(text@, phrase@, at as int),
{
    let n: usize = text.len();
    let mut j: usize = 0;
    while j < phrase.len()
        invariant
            n == text@.len(),
            j <= phrase@.len(),
            at + phrase@.len() <= text@.len(),
            forall|k: int| 0 <= k < j ==> text@[at + k] == phrase@[k],
        decreases phrase@.len() - j,
    {
        if text[at + j] != phrase[j] {
            assert(text@.subrange(at as int, at + phrase@.len())[j as int] != phrase@[j as int]);
            return false;
        }
        j = j + 1;
    }
    assert(text@.subrange(at as int, at + phrase@.len()) =~= phrase@);
    true
}

/// Substring search on bytes.
pub fn contains_phrase(text: &[u8], phrase: &[u8]) -> (r: bool)
    ensures
        r == mentions(text@, phrase@),
{
    if phrase.len() > text.len() {
        return false;
    }
    let last: usize = text.len() - phrase.len();
    let mut at: usize = 0;
    loop
        invariant
            last + phrase@.len() == text@.len(),
            at <= last,
            forall|i: int| 0 <= i < at ==> !occurs_at(text@, phrase@, i),
        decreases last - at,
    {
        if occurs_at_exec(text, phrase, at) {
            assert(text@.subrange(at as int, at + phrase@.len()) == phrase@);
            return true;
        }
        if at == last {
            assert forall|i: int|
                0 <= i && i + phrase@.len() <= text@.len() implies #[trigger] text@.subrange(
                i,
                i + phrase@.len(),
            ) != phrase@ by {
                assert(!occurs_at(text@, phrase@, i));
            }
            return false;
        }
        at = at + 1;
    }
}

/// Phrase of recent `csrutil status` output when protections are on.
pub open spec fn fs_enabled_phrase() -> Seq<u8> {
    "Filesystem Protections: enabled".spec_bytes()
}

/// Phrase of older `csrutil status` output when protections are on.
pub open spec fn sip_enabled_phrase() -> Seq<u8> {
    "System Integrity Protection status: enabled".spec_bytes()
}

/// Phrase of recent `csrutil status` output when protections are off.
pub open spec fn fs_disabled_phrase() -> Seq<u8> {
    "Filesystem Protections: disabled".spec_bytes()
}

/// Phrase of older `csrutil status` output when protections are off.
pub open spec fn sip_disabled_phrase() -> Seq<u8> {
    "System Integrity Protection status: disabled".spec_bytes()
}

/// Verdict of the command probe from how `csrutil status` exited and what it
/// printed: a failed run is indeterminate; an "enabled" phrase wins over a
/// "disabled" one; output with neither phrase is indeterminate.
pub open spec fn status_output_verdict(exit_success: bool, output: Seq<u8>) -> Option<bool> {
    if !exit_success {
        None
    } else if mentions(output, fs_enabled_phrase()) || mentions(output, sip_enabled_phrase()) {
        Some(true)
    } else if mentions(output, fs_disabled_phrase()) || mentions(output, sip_disabled_phrase()) {
        Some(false)
    } else {
        None
    }
}

/// Decides the command probe from the exit status and standard output of
/// `csrutil status`.
pub fn sip_from_status_output(exit_success: bool, output: &[u8]) -> (r: Option<bool>)
    ensures
        r == status_output_verdict(exit_success, output@),
{
    if !exit_success {
        return None;
    }
    if contains_phrase(output, "Filesystem Protections: enabled".as_bytes()) || contains_phrase(
        output,
        "System Integrity Protection status: enabled".as_bytes(),
    ) {
        Some(true)
    } else if contains_phrase(output, "Filesystem Protections: disabled".as_bytes())
        || contains_phrase(output, "System Integrity Protection status: disabled".as_bytes()) {
        Some(false)
    } else {
        None
    }
}

/// How `access(W_OK)` on the protected system directory came out.
#[derive(Clone, Copy, Debug, PartialEq, Eq, Structural, Hash)]
pub enum AccessOutcome {
    /// The call succeeded: the directory is writable.
    Writable,
    /// The call failed with "permission denied".
    PermissionDenied,
    /// The call failed with "read-only filesystem".
    ReadOnlyFilesystem,
    /// The call failed with any other error.
    OtherError,
}

/// Verdict of the filesystem probe.
pub open spec fn access_verdict(outcome: AccessOutcome) -> Option<bool> {
    match outcome {
        AccessOutcome::Writable => Some(false),
        AccessOutcome::PermissionDenied => Some(true),
        AccessOutcome::ReadOnlyFilesystem => Some(false),
        AccessOutcome::OtherError => None,
    }
}

/// Decides the filesystem probe. A read-only system volume counts as
/// unprotected even though the write itself fails.
pub fn sip_from_access_outcome(outcome: AccessOutcome) -> (r: Option<bool>)
    ensures
        r == access_verdict(outcome),
{
    match outcome {
        AccessOutcome::Writable => Some(false),
        AccessOutcome::PermissionDenied => Some(true),
        AccessOutcome::ReadOnlyFilesystem => Some(false),
        AccessOutcome::OtherError => None,
    }
}

} // verus!
