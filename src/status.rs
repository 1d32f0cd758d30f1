use vstd::prelude::*;

verus! {

/// The developer-tool authorization status of the process, as the raw
/// `NSInteger` that `-[EPDeveloperTool authorizationStatus]` returns.
#[derive(Clone, Copy, Debug, PartialEq, Eq, Structural, Hash, PartialOrd, Ord)]
pub struct EPDeveloperToolStatus(pub isize);

/// The meaning of a raw authorization status.
#[derive(Clone, Copy, Debug, PartialEq, Eq, Structural, Hash)]
pub enum DeveloperToolStatusKind {
    NotDetermined,
    Restricted,
    Denied,
    Authorized,
    /// A code outside the documented range, kept as it came.
    Unknown(isize),
}

/// Raw code of `EPDeveloperToolStatusNotDetermined`.
pub const NOT_DETERMINED: isize = 0;

/// Raw code of `EPDeveloperToolStatusRestricted`.
pub const RESTRICTED: isize = 1;

/// Raw code of `EPDeveloperToolStatusDenied`.
pub const DENIED: isize = 2;

/// Raw code of `EPDeveloperToolStatusAuthorized`.
pub const AUTHORIZED: isize = 3;

/// What a raw status code means.
pub open spec fn kind_of(raw: isize) -> DeveloperToolStatusKind {
    if raw == NOT_DETERMINED {
        DeveloperToolStatusKind::NotDetermined
    } else if raw == RESTRICTED {
        DeveloperToolStatusKind::Restricted
    } else if raw == DENIED {
        DeveloperToolStatusKind::Denied
    } else if raw == AUTHORIZED {
        DeveloperToolStatusKind::Authorized
    } else {
        DeveloperToolStatusKind::Unknown(raw)
    }
}

/// The raw code that stands for a kind.
pub open spec fn raw_of(kind: DeveloperToolStatusKind) -> isize {
    match kind {
        DeveloperToolStatusKind::NotDetermined => NOT_DETERMINED,
        DeveloperToolStatusKind::Restricted => RESTRICTED,
        DeveloperToolStatusKind::Denied => DENIED,
        DeveloperToolStatusKind::Authorized => AUTHORIZED,
        DeveloperToolStatusKind::Unknown(n) => n,
    }
}

impl EPDeveloperToolStatus {
    /// Wraps a raw code as returned by the status accessor.
    pub fn from_raw(raw: isize) -> (r: EPDeveloperToolStatus)
        ensures
            r.0 == raw,
    {
        EPDeveloperToolStatus(raw)
    }

    /// The raw code.
    pub fn raw(&self) -> (r: isize)
        ensures
            r == self.0,
    {
        self.0
    }

    /// What this status means: codes 0 to 3 are the four named states, any
    /// other code is `Unknown` carrying that code.
    pub fn kind(&self) -> (r: DeveloperToolStatusKind)
        ensures
            r == kind_of(self.0),
    {
        if self.0 == NOT_DETERMINED {
            DeveloperToolStatusKind::NotDetermined
        } else if self.0 == RESTRICTED {
            DeveloperToolStatusKind::Restricted
        } else if self.0 == DENIED {
            DeveloperToolStatusKind::Denied
        } else if self.0 == AUTHORIZED {
            DeveloperToolStatusKind::Authorized
        } else {
            DeveloperToolStatusKind::Unknown(self.0)
        }
    }

    /// A short human-readable description, "unknown" for an undocumented code.
    pub fn label(&self) -> (r: &'static str)
        ensures
            self.0 == 0 ==> r@ == "not determined"@,
            self.0 == 1 ==> r@ == "restricted"@,
            self.0 == 2 ==> r@ == "denied"@,
            self.0 == 3 ==> r@ == "authorized"@,
            !(0 <= self.0 <= 3) ==> r@ == "unknown"@,
    {
        match self.kind() {
            DeveloperToolStatusKind::NotDetermined => "not determined",
            DeveloperToolStatusKind::Restricted => "restricted",
            DeveloperToolStatusKind::Denied => "denied",
            DeveloperToolStatusKind::Authorized => "authorized",
            DeveloperToolStatusKind::Unknown(_) => "unknown",
        }
    }
}

impl DeveloperToolStatusKind {
    /// The raw code that stands for this kind.
    pub fn raw(&self) -> (r: isize)
        ensures
            r == raw_of(*self),
    {
        match self {
            DeveloperToolStatusKind::NotDetermined => NOT_DETERMINED,
            DeveloperToolStatusKind::Restricted => RESTRICTED,
            DeveloperToolStatusKind::Denied => DENIED,
            DeveloperToolStatusKind::Authorized => AUTHORIZED,
            DeveloperToolStatusKind::Unknown(n) => *n,
        }
    }
}

/// The mapping from raw codes is total and exact: 0 to 3 give the four named
/// states, every other code gives `Unknown` of that same code, and the raw
/// code can always be read back from the kind.
pub proof fn lemma_status_mapping_exact(raw: isize)
    ensures
        raw == 0 ==> kind_of(raw) == DeveloperToolStatusKind::NotDetermined,
        raw == 1 ==> kind_of(raw) == DeveloperToolStatusKind::Restricted,
        raw == 2 ==> kind_of(raw) == DeveloperToolStatusKind::Denied,
        raw == 3 ==> kind_of(raw) == DeveloperToolStatusKind::Authorized,
        !(0 <= raw <= 3) ==> kind_of(raw) == DeveloperToolStatusKind::Unknown(raw),
        raw_of(kind_of(raw)) == raw,
{
}

/// Distinct raw codes never share a kind.
pub proof fn lemma_status_mapping_injective(a: isize, b: isize)
    requires
        kind_of(a) == kind_of(b),
    ensures
        a == b,
{
    lemma_status_mapping_exact(a);
    lemma_status_mapping_exact(b);
}

} // verus!
