//! Fixed sidecar configuration: network constants, poll timing, and the
//! platform-conditioned resource candidate tables.

use vstd::prelude::*;

verus! {

/// Path conventions differ by target platform. The candidate tables are data
/// keyed by this enum, so every table can be exercised on any host.
#[derive(Clone, Copy, PartialEq, Eq, Structural, Debug)]
pub enum Platform {
    Windows,
    Unix,
}

/// Fixed TCP port the sidecar is told to bind and the probe connects to.
pub const SIDECAR_PORT: u16 = 1430;

/// Hard deadline for the readiness probe, measured from probe start.
pub const READINESS_TIMEOUT_MS: u64 = 20000;

/// Sleep between readiness connect attempts.
pub const POLL_INTERVAL_MS: u64 = 150;

/// Loopback host the sidecar binds and the probe connects to.
pub open spec fn spec_sidecar_host() -> Seq<char> {
    "127.0.0.1"@
}

pub fn sidecar_host() -> (r: &'static str)
    ensures
        r@ == spec_sidecar_host(),
{
    "127.0.0.1"
}

/// Decimal text of `SIDECAR_PORT`, handed to the child in its environment.
pub open spec fn spec_sidecar_port_text() -> Seq<char> {
    "1430"@
}

pub fn sidecar_port_text() -> (r: &'static str)
    ensures
        r@ == spec_sidecar_port_text(),
{
    "1430"
}

/// The decimal digit characters of `n`, most significant first.
pub open spec fn spec_decimal(n: nat) -> Seq<char>
    decreases n,
{
    if n < 10 {
        seq![spec_digit_char(n)]
    } else {
        spec_decimal(n / 10) + seq![spec_digit_char(n % 10)]
    }
}

pub open spec fn spec_digit_char(d: nat) -> char {
    if d == 0 { '0' }
    else if d == 1 { '1' }
    else if d == 2 { '2' }
    else if d == 3 { '3' }
    else if d == 4 { '4' }
    else if d == 5 { '5' }
    else if d == 6 { '6' }
    else if d == 7 { '7' }
    else if d == 8 { '8' }
    else { '9' }
}

/// Law: the port text handed to the child is the decimal rendering of
/// `SIDECAR_PORT`, so the two constants cannot silently diverge.
pub proof fn lemma_port_text_is_decimal_of_port()
    ensures
        spec_sidecar_port_text() == spec_decimal(SIDECAR_PORT as nat),
{
    reveal_strlit("1430");
    assert(spec_decimal(1) =~= seq!['1']);
    assert(spec_decimal(14) =~= spec_decimal(1) + seq!['4']);
    assert(spec_decimal(143) =~= spec_decimal(14) + seq!['3']);
    assert(spec_decimal(1430) =~= spec_decimal(143) + seq!['0']);
    assert(spec_sidecar_port_text() =~= seq!['1', '4', '3', '0']);
    assert(spec_decimal(1430) =~= seq!['1', '4', '3', '0']);
}

/// Separator used when joining a file name onto a resolved directory.
pub open spec fn spec_path_sep(p: Platform) -> Seq<char> {
    match p {
        Platform::Windows => "\\"@,
        Platform::Unix => "/"@,
    }
}

pub fn path_sep(p: Platform) -> (r: &'static str)
    ensures
        r@ == spec_path_sep(p),
{
    match p {
        Platform::Windows => "\\",
        Platform::Unix => "/",
    }
}

/// Relative candidates for the sidecar resource directory, in priority
/// order: primary bundled layout first, alternate layout second.
pub fn sidecar_dir_candidates() -> (r: Vec<&'static str>)
    ensures
        r@.len() == 2,
        r@[0]@ == "next-standalone"@,
        r@[1]@ == "resources/next-standalone"@,
{
    let mut v: Vec<&'static str> = Vec::new();
    v.push("next-standalone");
    v.push("resources/next-standalone");
    v
}

/// Relative candidates for a bundled runtime binary, in priority order.
pub fn node_bin_candidates(p: Platform) -> (r: Vec<&'static str>)
    ensures
        p is Windows ==> {
            &&& r@.len() == 4
            &&& r@[0]@ == "node-runtime/node.exe"@
            &&& r@[1]@ == "resources/node-runtime/node.exe"@
            &&& r@[2]@ == "node-runtime/bin/node.exe"@
            &&& r@[3]@ == "resources/node-runtime/bin/node.exe"@
        },
        p is Unix ==> {
            &&& r@.len() == 2
            &&& r@[0]@ == "node-runtime/bin/node"@
            &&& r@[1]@ == "resources/node-runtime/bin/node"@
        },
{
    let mut v: Vec<&'static str> = Vec::new();
    match p {
        Platform::Windows => {
            v.push("node-runtime/node.exe");
            v.push("resources/node-runtime/node.exe");
            v.push("node-runtime/bin/node.exe");
            v.push("resources/node-runtime/bin/node.exe");
        }
        Platform::Unix => {
            v.push("node-runtime/bin/node");
            v.push("resources/node-runtime/bin/node");
        }
    }
    v
}

/// Last-resort runtime path when neither a bundled runtime nor a trusted
/// override is available. The Unix value is a common install location, not a
/// guaranteed one: a missing binary surfaces later as a spawn error.
pub open spec fn spec_fallback_runtime(p: Platform) -> Seq<char> {
    match p {
        Platform::Windows => "node.exe"@,
        Platform::Unix => "/opt/homebrew/bin/node"@,
    }
}

pub fn fallback_runtime(p: Platform) -> (r: &'static str)
    ensures
        r@ == spec_fallback_runtime(p),
{
    match p {
        Platform::Windows => "node.exe",
        Platform::Unix => "/opt/homebrew/bin/node",
    }
}

} // verus!
