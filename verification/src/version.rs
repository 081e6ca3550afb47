//! The SDK version, the user agent and the runtime headers that requests
//! carry.
use vstd::prelude::*;

verus! {

/// The version of the SDK.
pub const VERSION: &'static str = "0.1.0";

/// Returns the user agent string for SDK requests: `sumup-rs/v<version>`.
pub fn user_agent() -> (r: String)
    ensures
        r@ == "sumup-rs/v"@ + VERSION@,
{
    let mut s = String::from_str("sumup-rs/v");
    s.append(VERSION);
    s
}

/// The architecture name that requests report for the platform name `arch`
/// (as `std::env::consts::ARCH` spells it): `x86_64` stays, `x86` and
/// `i686` are reported as `x86`, `aarch64` as `arm64`, and every other name
/// as it is.
pub open spec fn normalized_arch(arch: Seq<char>) -> Seq<char> {
    if arch == "x86_64"@ {
        arch
    } else if arch == "x86"@ || arch == "i686"@ {
        "x86"@
    } else if arch == "aarch64"@ {
        "arm64"@
    } else {
        arch
    }
}

/// The architecture name that requests report for the platform name `arch`.
pub fn normalize_arch(arch: &str) -> (r: String)
    ensures
        r@ == normalized_arch(arch@),
{
    let a = arch.to_owned();
    if a == String::from_str("x86_64") {
        a
    } else if a == String::from_str("x86") || a == String::from_str("i686") {
        String::from_str("x86")
    } else if a == String::from_str("aarch64") {
        String::from_str("arm64")
    } else {
        a
    }
}

/// The compiler version that requests report: the one recorded when the SDK
/// was built, or `unknown`.
pub open spec fn reported_rustc_version(recorded: Option<Seq<char>>) -> Seq<char> {
    match recorded {
        Some(v) => v,
        None => "unknown"@,
    }
}

/// The text of an optional string slice.
pub open spec fn opt_str_view(s: Option<&str>) -> Option<Seq<char>> {
    match s {
        Some(v) => Some(v@),
        None => None,
    }
}

/// The runtime headers, by name and value, for the API version, the platform
/// (operating system and architecture names as `std::env::consts` spells
/// them) and the compiler version recorded at build time.
pub open spec fn runtime_info_view(
    api_version: Seq<char>,
    os: Seq<char>,
    arch: Seq<char>,
    rustc_version: Option<Seq<char>>,
) -> Seq<(Seq<char>, Seq<char>)> {
    seq![
        ("X-Sumup-Api-Version"@, api_version),
        ("X-SumUp-Lang"@, "rust"@),
        ("X-SumUp-Package-Version"@, VERSION@),
        ("X-SumUp-Os"@, os),
        ("X-SumUp-Arch"@, normalized_arch(arch)),
        ("X-SumUp-Runtime"@, "rust"@),
        ("X-SumUp-Runtime-Version"@, reported_rustc_version(rustc_version)),
    ]
}

/// The compiler version that requests report.
pub fn rustc_version(recorded: Option<&str>) -> (r: String)
    ensures
        r@ == reported_rustc_version(opt_str_view(recorded)),
{
    match recorded {
        Some(v) => v.to_owned(),
        None => String::from_str("unknown"),
    }
}

/// Returns the runtime headers for SDK requests.
pub fn runtime_info(api_version: &str, os: &str, arch: &str, recorded_rustc_version: Option<&str>) -> (r: Vec<(&'static str, String)>)
    ensures
        r@.map_values(|h: (&'static str, String)| (h.0@, h.1@)) == runtime_info_view(
            api_version@,
            os@,
            arch@,
            opt_str_view(recorded_rustc_version),
        ),
{
    let mut r: Vec<(&'static str, String)> = Vec::new();
    r.push(("X-Sumup-Api-Version", api_version.to_owned()));
    r.push(("X-SumUp-Lang", String::from_str("rust")));
    r.push(("X-SumUp-Package-Version", VERSION.to_owned()));
    r.push(("X-SumUp-Os", os.to_owned()));
    r.push(("X-SumUp-Arch", normalize_arch(arch)));
    r.push(("X-SumUp-Runtime", String::from_str("rust")));
    r.push(("X-SumUp-Runtime-Version", rustc_version(recorded_rustc_version)));
    assert(r@.map_values(|h: (&'static str, String)| (h.0@, h.1@)) =~= runtime_info_view(
        api_version@,
        os@,
        arch@,
        opt_str_view(recorded_rustc_version),
    ));
    r
}

} // verus!
