//! Installed package descriptors and the total order on their
//! identifiers that update detection relies on.

use vstd::prelude::*;

verus! {

/// Identity of one released artifact: origin, name, and a totally
/// ordered (version, release) pair.
#[derive(Debug)]
pub struct PackageIdent {
    pub origin: String,
    pub name: String,
    pub version: u64,
    pub release: u64,
}

/// Two identifiers refer to the same logical package.
pub open spec fn spec_same_package(a: PackageIdent, b: PackageIdent) -> bool {
    a.origin@ == b.origin@ && a.name@ == b.name@
}

/// `a` is a strictly newer release of the same package than `b`.
pub open spec fn spec_newer_than(a: PackageIdent, b: PackageIdent) -> bool {
    spec_same_package(a, b) && (a.version > b.version || (a.version == b.version && a.release
        > b.release))
}

impl Clone for PackageIdent {
    fn clone(&self) -> (r: Self)
        ensures
            r == *self,
    {
        PackageIdent {
            origin: self.origin.clone(),
            name: self.name.clone(),
            version: self.version,
            release: self.release,
        }
    }
}

impl PackageIdent {
    pub fn new(origin: String, name: String, version: u64, release: u64) -> (r: PackageIdent)
        ensures
            r == (PackageIdent { origin, name, version, release }),
    {
        PackageIdent { origin, name, version, release }
    }

    /// Decides the strict "newer release of the same package" order.
    pub fn newer_than(&self, other: &PackageIdent) -> (r: bool)
        ensures
            r == spec_newer_than(*self, *other),
    {
        self.origin == other.origin && self.name == other.name && (self.version > other.version || (
        self.version == other.version && self.release > other.release))
    }
}

/// An immutable descriptor of one installed artifact: replaced whole
/// when an update is applied, never patched.
#[derive(Debug)]
pub struct Package {
    /// The package's short name; also names the service group.
    pub name: String,
    pub ident: PackageIdent,
    /// Port declarations as written in the package, not yet parsed.
    pub exposes: Vec<String>,
    /// Platform identity the service process runs as.
    pub svc_user: String,
    pub svc_group: String,
}

impl Clone for Package {
    fn clone(&self) -> (r: Self)
        ensures
            r.name == self.name,
            r.ident == self.ident,
            r.exposes@ == self.exposes@,
            r.svc_user == self.svc_user,
            r.svc_group == self.svc_group,
    {
        let mut exposes: Vec<String> = Vec::new();
        let mut i: usize = 0;
        while i < self.exposes.len()
            invariant
                i <= self.exposes.len(),
                exposes@ =~= self.exposes@.take(i as int),
            decreases self.exposes.len() - i,
        {
            exposes.push(self.exposes[i].clone());
            i = i + 1;
        }
        proof {
            assert(exposes@ =~= self.exposes@);
        }
        Package {
            name: self.name.clone(),
            ident: self.ident.clone(),
            exposes,
            svc_user: self.svc_user.clone(),
            svc_group: self.svc_group.clone(),
        }
    }
}

/// Whether `c` is a decimal digit.
pub open spec fn spec_is_digit(c: char) -> bool {
    48 <= c as int <= 57
}

/// The number a digit sequence denotes, most significant digit first.
pub open spec fn spec_digits_val(s: Seq<char>) -> int
    decreases s.len(),
{
    if s.len() == 0 {
        0
    } else {
        spec_digits_val(s.drop_last()) * 10 + (s.last() as int - 48)
    }
}

/// A valid declared port: non-empty, all decimal digits, and small
/// enough for a 32-bit port field.
pub open spec fn spec_valid_port(s: Seq<char>) -> bool {
    &&& s.len() > 0
    &&& forall|i: int| 0 <= i < s.len() ==> spec_is_digit(#[trigger] s[i])
    &&& spec_digits_val(s) <= u32::MAX
}

proof fn lemma_digits_val_nonneg(s: Seq<char>)
    requires
        forall|i: int| 0 <= i < s.len() ==> spec_is_digit(#[trigger] s[i]),
    ensures
        spec_digits_val(s) >= 0,
    decreases s.len(),
{
    if s.len() > 0 {
        lemma_digits_val_nonneg(s.drop_last());
    }
}

proof fn lemma_digits_val_prefix_le(s: Seq<char>, k: int)
    requires
        forall|i: int| 0 <= i < s.len() ==> spec_is_digit(#[trigger] s[i]),
        0 <= k <= s.len(),
    ensures
        spec_digits_val(s.take(k)) <= spec_digits_val(s),
    decreases s.len(),
{
    if k == s.len() {
        assert(s.take(k) =~= s);
    } else {
        let d = s.drop_last();
        assert(forall|i: int| 0 <= i < d.len() ==> spec_is_digit(#[trigger] d[i]));
        lemma_digits_val_prefix_le(d, k);
        assert(s.take(k) =~= d.take(k));
        lemma_digits_val_nonneg(d);
    }
}

/// Parses a declared port string as a decimal number, rejecting
/// anything empty, non-numeric, or too large for `u32`.
pub fn parse_port(s: &str) -> (r: Option<u32>)
    ensures
        match r {
            Some(n) => spec_valid_port(s@) && n == spec_digits_val(s@),
            None => !spec_valid_port(s@),
        },
{
    let n = s.unicode_len();
    if n == 0 {
        return None;
    }
    let mut val: u64 = 0;
    let mut i: usize = 0;
    while i < n
        invariant
            0 < n == s@.len(),
            i <= n,
            forall|k: int| 0 <= k < i ==> spec_is_digit(#[trigger] s@[k]),
            val == spec_digits_val(s@.take(i as int)),
            val <= u32::MAX,
        decreases n - i,
    {
        let c = s.get_char(i);
        let d = c as u32;
        if d < 48 || d > 57 {
            return None;
        }
        proof {
            assert(s@.take(i + 1).drop_last() =~= s@.take(i as int));
            assert(s@.take(i + 1).last() == s@[i as int]);
        }
        val = val * 10 + (d - 48) as u64;
        i = i + 1;
        if val > u32::MAX as u64 {
            proof {
                if forall|k: int| 0 <= k < s@.len() ==> spec_is_digit(#[trigger] s@[k]) {
                    lemma_digits_val_prefix_le(s@, i as int);
                }
            }
            return None;
        }
    }
    proof {
        assert(s@.take(n as int) =~= s@);
    }
    Some(val as u32)
}

} // verus!
