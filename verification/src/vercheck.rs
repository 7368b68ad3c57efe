//! Advisory dependency-version validation.
//!
//! The generator emits code against specific versions of the web framework,
//! the RPC framework and the HTTP types crate; a mismatch between those and
//! the embedding project's dependencies is reported (but does not abort the
//! build).  The metadata query that discovers the project's actual
//! dependency versions is I/O and lives with the embedding build script;
//! the version model, the version-string parser and the comparison logic
//! live here.  A version is modeled by its numeric `major.minor.patch`
//! triple.

use vstd::prelude::*;

use crate::naming::split_dots;
use crate::strutil::str_eq;

verus! {

/// A semantic version, reduced to its numeric triple.
#[derive(Clone, Copy, PartialEq, Eq, Structural, Debug)]
pub struct Version {
    pub major: u64,
    pub minor: u64,
    pub patch: u64,
}

/// The numeric value of a digit character, `0` for any other character.
pub open spec fn char_digit(c: char) -> nat {
    if 48 <= c as u32 <= 57 {
        (c as u32 - 48) as nat
    } else {
        0
    }
}

/// `s` is a nonempty run of ASCII digits.
pub open spec fn is_digit_run(s: Seq<char>) -> bool {
    s.len() > 0 && forall|k: int| 0 <= k < s.len() ==> 48 <= #[trigger] (s[k] as u32) <= 57
}

/// The number written by the digits of `s`.
pub open spec fn digits_val(s: Seq<char>) -> nat
    decreases s.len(),
{
    if s.len() == 0 {
        0
    } else {
        digits_val(s.drop_last()) * 10 + char_digit(s.last())
    }
}

/// `s` is a well-formed version string: three dot-separated digit runs,
/// each value fitting the version model.
pub open spec fn version_wf(s: Seq<char>) -> bool {
    let parts = split_dots(s);
    &&& parts.len() == 3
    &&& is_digit_run(parts[0]) && digits_val(parts[0]) <= u64::MAX
    &&& is_digit_run(parts[1]) && digits_val(parts[1]) <= u64::MAX
    &&& is_digit_run(parts[2]) && digits_val(parts[2]) <= u64::MAX
}

/// The version a well-formed version string denotes.
pub open spec fn version_of(s: Seq<char>) -> Version {
    let parts = split_dots(s);
    Version {
        major: digits_val(parts[0]) as u64,
        minor: digits_val(parts[1]) as u64,
        patch: digits_val(parts[2]) as u64,
    }
}

proof fn lemma_digits_prefix_le(s: Seq<char>, i: int, j: int)
    requires
        0 <= i <= j <= s.len(),
    ensures
        digits_val(s.subrange(0, i)) <= digits_val(s.subrange(0, j)),
    decreases j - i,
{
    if i < j {
        lemma_digits_prefix_le(s, i, j - 1);
        let p = s.subrange(0, j);
        assert(p.drop_last() =~= s.subrange(0, j - 1));
    }
}

proof fn lemma_digits_whole(s: Seq<char>)
    ensures
        digits_val(s.subrange(0, s.len() as int)) == digits_val(s),
{
    assert(s.subrange(0, s.len() as int) =~= s);
}

/// Parse a nonempty run of ASCII digits into its value; `None` when `s` is
/// not such a run or its value does not fit.
pub fn parse_digits(s: &str) -> (r: Option<u64>)
    ensures
        match r {
            Some(v) => is_digit_run(s@) && digits_val(s@) <= u64::MAX && v == digits_val(s@),
            None => !is_digit_run(s@) || digits_val(s@) > u64::MAX,
        },
{
    let n = s.unicode_len();
    if n == 0 {
        return None;
    }
    let mut acc: u64 = 0;
    let mut i: usize = 0;
    while i < n
        invariant
            n == s@.len(),
            i <= n,
            forall|k: int| 0 <= k < i ==> 48 <= #[trigger] (s@[k] as u32) <= 57,
            acc == digits_val(s@.subrange(0, i as int)),
        decreases n - i,
    {
        let c = s.get_char(i);
        let u = c as u32;
        if u < 48 || u > 57 {
            return None;
        }
        let d = (u - 48) as u64;
        proof {
            let p = s@.subrange(0, i as int + 1);
            assert(p.drop_last() =~= s@.subrange(0, i as int));
            assert(p.last() == s@[i as int]);
        }
        if acc > (u64::MAX - d) / 10 {
            proof {
                assert(digits_val(s@.subrange(0, i as int + 1)) > u64::MAX) by {
                    assert(acc * 10 + d > u64::MAX) by (nonlinear_arith)
                        requires
                            acc > (u64::MAX - d) / 10,
                            d <= 9,
                    ;
                };
                lemma_digits_prefix_le(s@, i as int + 1, n as int);
                lemma_digits_whole(s@);
            }
            return None;
        }
        proof {
            assert(acc * 10 + d <= u64::MAX) by (nonlinear_arith)
                requires
                    acc <= (u64::MAX - d) / 10,
                    d <= 9,
            ;
        }
        acc = acc * 10 + d;
        i = i + 1;
    }
    proof {
        lemma_digits_whole(s@);
    }
    Some(acc)
}

/// A dependency-validation failure.
#[derive(Clone, Debug, PartialEq, Eq)]
pub enum DepError {
    /// A required dependency is missing from the project altogether.
    DependencyAbsent { name: String },
    /// A dependency exists at an incompatible version.
    DependencyVersionMismatch { name: String, expected: Version, actual: Version },
    /// An expected-version string of the generator itself is malformed.
    VersionParse { text: String },
}

/// Parse a dot-separated version string into the version model; `None`
/// when it is not `major.minor.patch` with numeric components in range.
pub fn parse_version(s: &str) -> (r: Option<Version>)
    ensures
        match r {
            Some(v) => version_wf(s@) && v == version_of(s@),
            None => !version_wf(s@),
        },
{
    let n = s.unicode_len();
    let mut segs: Vec<String> = Vec::new();
    let mut i: usize = 0;
    loop
        invariant_except_break
            split_dots(s@) =~= segs@.map_values(|t: String| t@) + crate::naming::split_dots_from(
                s@,
                i as int,
            ),
        invariant
            n == s@.len(),
            i <= n,
        ensures
            split_dots(s@) =~= segs@.map_values(|t: String| t@),
        decreases n - i,
    {
        let ghost segs0 = segs@;
        let mut j = i;
        while j < n && s.get_char(j) != '.'
            invariant
                n == s@.len(),
                i <= j <= n,
                forall|k: int| i <= k < j ==> s@[k] != '.',
            decreases n - j,
        {
            j = j + 1;
        }
        proof {
            crate::naming::lemma_find_dot_at(s@, i as int, j as int);
        }
        segs.push(s.substring_char(i, j).to_owned());
        proof {
            assert(segs@.map_values(|t: String| t@) =~= segs0.map_values(|t: String| t@).push(
                s@.subrange(i as int, j as int),
            ));
        }
        if j == n {
            proof {
                assert(crate::naming::split_dots_from(s@, i as int) =~= seq![
                    s@.subrange(i as int, n as int),
                ]);
            }
            break;
        }
        proof {
            assert(crate::naming::split_dots_from(s@, i as int) =~= seq![
                s@.subrange(i as int, j as int),
            ] + crate::naming::split_dots_from(s@, j as int + 1));
        }
        i = j + 1;
    }
    if segs.len() != 3 {
        return None;
    }
    let major = match parse_digits(segs[0].as_str()) {
        Some(v) => v,
        None => {
            return None;
        },
    };
    let minor = match parse_digits(segs[1].as_str()) {
        Some(v) => v,
        None => {
            return None;
        },
    };
    let patch = match parse_digits(segs[2].as_str()) {
        Some(v) => v,
        None => {
            return None;
        },
    };
    Some(Version { major, minor, patch })
}

/// The expected versions of the runtime dependencies the generated code is
/// written against.
#[derive(Clone, Copy, PartialEq, Eq, Structural, Debug)]
pub struct Deps {
    pub axum_version: Version,
    pub tonic_version: Version,
    pub http_version: Version,
}

impl Deps {
    /// Parse the three expected version strings.  Fails on the first
    /// malformed one, naming it.
    pub fn new(axum_version: &str, tonic_version: &str, http_version: &str) -> (r: Result<
        Deps,
        DepError,
    >)
        ensures
            match r {
                Ok(d) => {
                    &&& version_wf(axum_version@) && d.axum_version == version_of(axum_version@)
                    &&& version_wf(tonic_version@) && d.tonic_version == version_of(
                        tonic_version@,
                    )
                    &&& version_wf(http_version@) && d.http_version == version_of(http_version@)
                },
                Err(e) => match e {
                    DepError::VersionParse { text } => {
                        ||| (text@ == axum_version@ && !version_wf(axum_version@))
                        ||| (version_wf(axum_version@) && text@ == tonic_version@ && !version_wf(
                            tonic_version@,
                        ))
                        ||| (version_wf(axum_version@) && version_wf(tonic_version@) && text@
                            == http_version@ && !version_wf(http_version@))
                    },
                    _ => false,
                },
            },
    {
        let axum = match parse_version(axum_version) {
            Some(v) => v,
            None => {
                return Err(DepError::VersionParse { text: axum_version.to_owned() });
            },
        };
        let tonic = match parse_version(tonic_version) {
            Some(v) => v,
            None => {
                return Err(DepError::VersionParse { text: tonic_version.to_owned() });
            },
        };
        let http = match parse_version(http_version) {
            Some(v) => v,
            None => {
                return Err(DepError::VersionParse { text: http_version.to_owned() });
            },
        };
        Ok(Deps { axum_version: axum, tonic_version: tonic, http_version: http })
    }
}

/// One dependency of the embedding project: its package name and version.
#[derive(Clone, Debug)]
pub struct PackageVersion {
    pub name: String,
    pub version: Version,
}

/// The version of the first package in `pkgs[k..]` named `name`.
pub open spec fn find_pkg_from(pkgs: Seq<PackageVersion>, name: Seq<char>, k: int) -> Option<
    Version,
>
    decreases pkgs.len() - k,
{
    if k < 0 || k >= pkgs.len() {
        None
    } else if pkgs[k].name@ == name {
        Some(pkgs[k].version)
    } else {
        find_pkg_from(pkgs, name, k + 1)
    }
}

/// What the check finds for one required dependency: fine, absent, or
/// present at another version.
pub ghost enum DepFinding {
    Fine,
    Absent,
    Mismatch(Version),
}

/// The finding for dependency `name` at expected version `expected`.
pub open spec fn dep_finding(
    pkgs: Seq<PackageVersion>,
    name: Seq<char>,
    expected: Version,
) -> DepFinding {
    match find_pkg_from(pkgs, name, 0) {
        None => DepFinding::Absent,
        Some(actual) => if actual == expected {
            DepFinding::Fine
        } else {
            DepFinding::Mismatch(actual)
        },
    }
}

fn check_one(pkgs: &Vec<PackageVersion>, name: &str, expected: Version) -> (r: Result<
    (),
    DepError,
>)
    ensures
        match r {
            Ok(_) => dep_finding(pkgs@, name@, expected) is Fine,
            Err(e) => match e {
                DepError::DependencyAbsent { name: n } => n@ == name@ && dep_finding(
                    pkgs@,
                    name@,
                    expected,
                ) is Absent,
                DepError::DependencyVersionMismatch { name: n, expected: x, actual: a } => n@
                    == name@ && x == expected && dep_finding(pkgs@, name@, expected)
                    == DepFinding::Mismatch(a),
                _ => false,
            },
        },
{
    let mut k: usize = 0;
    while k < pkgs.len()
        invariant
            k <= pkgs.len(),
            find_pkg_from(pkgs@, name@, 0) == find_pkg_from(pkgs@, name@, k as int),
        decreases pkgs.len() - k,
    {
        if str_eq(pkgs[k].name.as_str(), name) {
            let actual = pkgs[k].version;
            if actual == expected {
                return Ok(());
            } else {
                return Err(
                    DepError::DependencyVersionMismatch {
                        name: name.to_owned(),
                        expected,
                        actual,
                    },
                );
            }
        }
        k = k + 1;
    }
    Err(DepError::DependencyAbsent { name: name.to_owned() })
}

impl Deps {
    /// Validate the expected versions against the project's dependency
    /// list: each of the three required dependencies must be present at
    /// exactly the expected version.  Reports the first finding, in the
    /// order axum, tonic, http.
    pub fn validate(&self, packages: &Vec<PackageVersion>) -> (r: Result<(), DepError>)
        ensures
            match r {
                Ok(_) => {
                    &&& dep_finding(packages@, "axum"@, self.axum_version) is Fine
                    &&& dep_finding(packages@, "tonic"@, self.tonic_version) is Fine
                    &&& dep_finding(packages@, "http"@, self.http_version) is Fine
                },
                Err(e) => match e {
                    DepError::DependencyAbsent { name: n } => {
                        ||| (n@ == "axum"@ && dep_finding(packages@, "axum"@, self.axum_version)
                            is Absent)
                        ||| (dep_finding(packages@, "axum"@, self.axum_version) is Fine && n@
                            == "tonic"@ && dep_finding(packages@, "tonic"@, self.tonic_version)
                            is Absent)
                        ||| (dep_finding(packages@, "axum"@, self.axum_version) is Fine
                            && dep_finding(packages@, "tonic"@, self.tonic_version) is Fine && n@
                            == "http"@ && dep_finding(packages@, "http"@, self.http_version)
                            is Absent)
                    },
                    DepError::DependencyVersionMismatch { name: n, expected: x, actual: a } => {
                        ||| (n@ == "axum"@ && x == self.axum_version && dep_finding(
                            packages@,
                            "axum"@,
                            self.axum_version,
                        ) == DepFinding::Mismatch(a))
                        ||| (dep_finding(packages@, "axum"@, self.axum_version) is Fine && n@
                            == "tonic"@ && x == self.tonic_version && dep_finding(
                            packages@,
                            "tonic"@,
                            self.tonic_version,
                        ) == DepFinding::Mismatch(a))
                        ||| (dep_finding(packages@, "axum"@, self.axum_version) is Fine
                            && dep_finding(packages@, "tonic"@, self.tonic_version) is Fine && n@
                            == "http"@ && x == self.http_version && dep_finding(
                            packages@,
                            "http"@,
                            self.http_version,
                        ) == DepFinding::Mismatch(a))
                    },
                    _ => false,
                },
            },
    {
        match check_one(packages, "axum", self.axum_version) {
            Ok(_) => {},
            Err(e) => {
                return Err(e);
            },
        }
        match check_one(packages, "tonic", self.tonic_version) {
            Ok(_) => {},
            Err(e) => {
                return Err(e);
            },
        }
        check_one(packages, "http", self.http_version)
    }
}

} // verus!
