//! Platform identity and the release asset naming convention.
//!
//! A release ships one archive per supported platform/architecture pair,
//! named `ty-<arch>-<os>.<suffix>`: architecture tokens `aarch64`, `i686`,
//! `x86_64`; operating-system tokens `apple-darwin`, `unknown-linux-gnu`,
//! `pc-windows-msvc`; suffix `zip` on windows and `tar.gz` elsewhere.

use vstd::prelude::*;
use vstd::string::StringExecFns;

verus! {

/// Operating system of the host, as the resolution environment reports it.
#[derive(Clone, Copy, PartialEq, Eq, Structural, Debug)]
pub enum Os {
    Mac,
    Linux,
    Windows,
}

/// Processor architecture of the host, as the resolution environment reports it.
#[derive(Clone, Copy, PartialEq, Eq, Structural, Debug)]
pub enum Arch {
    Aarch64,
    X86,
    X8664,
}

/// The architecture token used in asset file names.
pub open spec fn arch_token_spec(arch: Arch) -> Seq<char> {
    match arch {
        Arch::Aarch64 => "aarch64"@,
        Arch::X86 => "i686"@,
        Arch::X8664 => "x86_64"@,
    }
}

/// The operating-system token used in asset file names.
pub open spec fn os_token_spec(os: Os) -> Seq<char> {
    match os {
        Os::Mac => "apple-darwin"@,
        Os::Linux => "unknown-linux-gnu"@,
        Os::Windows => "pc-windows-msvc"@,
    }
}

/// The archive suffix: `zip` on windows, `tar.gz` elsewhere.
pub open spec fn suffix_spec(os: Os) -> Seq<char> {
    match os {
        Os::Windows => "zip"@,
        _ => "tar.gz"@,
    }
}

/// The asset file name without its suffix: `ty-<arch>-<os>`.
pub open spec fn asset_stem_spec(os: Os, arch: Arch) -> Seq<char> {
    "ty-"@ + arch_token_spec(arch) + "-"@ + os_token_spec(os)
}

/// The full asset file name: `ty-<arch>-<os>.<suffix>`.
pub open spec fn asset_name_spec(os: Os, arch: Arch) -> Seq<char> {
    asset_stem_spec(os, arch) + "."@ + suffix_spec(os)
}

/// The naming table, written out: every supported platform/architecture
/// pair and the asset file name constructed for it. The construction is a
/// pure function of the pair, so each name is deterministic, and the
/// matches behind it are exhaustive over both enums — an unsupported pair
/// cannot fall into a silent default.
pub proof fn lemma_asset_naming_table()
    ensures
        asset_name_spec(Os::Mac, Arch::Aarch64) == "ty-aarch64-apple-darwin.tar.gz"@,
        asset_name_spec(Os::Mac, Arch::X86) == "ty-i686-apple-darwin.tar.gz"@,
        asset_name_spec(Os::Mac, Arch::X8664) == "ty-x86_64-apple-darwin.tar.gz"@,
        asset_name_spec(Os::Linux, Arch::Aarch64) == "ty-aarch64-unknown-linux-gnu.tar.gz"@,
        asset_name_spec(Os::Linux, Arch::X86) == "ty-i686-unknown-linux-gnu.tar.gz"@,
        asset_name_spec(Os::Linux, Arch::X8664) == "ty-x86_64-unknown-linux-gnu.tar.gz"@,
        asset_name_spec(Os::Windows, Arch::Aarch64) == "ty-aarch64-pc-windows-msvc.zip"@,
        asset_name_spec(Os::Windows, Arch::X86) == "ty-i686-pc-windows-msvc.zip"@,
        asset_name_spec(Os::Windows, Arch::X8664) == "ty-x86_64-pc-windows-msvc.zip"@,
{
    reveal_strlit("ty-");
    reveal_strlit("-");
    reveal_strlit(".");
    reveal_strlit("aarch64");
    reveal_strlit("i686");
    reveal_strlit("x86_64");
    reveal_strlit("apple-darwin");
    reveal_strlit("unknown-linux-gnu");
    reveal_strlit("pc-windows-msvc");
    reveal_strlit("tar.gz");
    reveal_strlit("zip");
    reveal_strlit("ty-aarch64-apple-darwin.tar.gz");
    reveal_strlit("ty-i686-apple-darwin.tar.gz");
    reveal_strlit("ty-x86_64-apple-darwin.tar.gz");
    reveal_strlit("ty-aarch64-unknown-linux-gnu.tar.gz");
    reveal_strlit("ty-i686-unknown-linux-gnu.tar.gz");
    reveal_strlit("ty-x86_64-unknown-linux-gnu.tar.gz");
    reveal_strlit("ty-aarch64-pc-windows-msvc.zip");
    reveal_strlit("ty-i686-pc-windows-msvc.zip");
    reveal_strlit("ty-x86_64-pc-windows-msvc.zip");
    assert(asset_name_spec(Os::Mac, Arch::Aarch64) =~= "ty-aarch64-apple-darwin.tar.gz"@);
    assert(asset_name_spec(Os::Mac, Arch::X86) =~= "ty-i686-apple-darwin.tar.gz"@);
    assert(asset_name_spec(Os::Mac, Arch::X8664) =~= "ty-x86_64-apple-darwin.tar.gz"@);
    assert(asset_name_spec(Os::Linux, Arch::Aarch64) =~= "ty-aarch64-unknown-linux-gnu.tar.gz"@);
    assert(asset_name_spec(Os::Linux, Arch::X86) =~= "ty-i686-unknown-linux-gnu.tar.gz"@);
    assert(asset_name_spec(Os::Linux, Arch::X8664) =~= "ty-x86_64-unknown-linux-gnu.tar.gz"@);
    assert(asset_name_spec(Os::Windows, Arch::Aarch64) =~= "ty-aarch64-pc-windows-msvc.zip"@);
    assert(asset_name_spec(Os::Windows, Arch::X86) =~= "ty-i686-pc-windows-msvc.zip"@);
    assert(asset_name_spec(Os::Windows, Arch::X8664) =~= "ty-x86_64-pc-windows-msvc.zip"@);
}

pub fn arch_token(arch: Arch) -> (r: &'static str)
    ensures
        r@ == arch_token_spec(arch),
{
    match arch {
        Arch::Aarch64 => "aarch64",
        Arch::X86 => "i686",
        Arch::X8664 => "x86_64",
    }
}

pub fn os_token(os: Os) -> (r: &'static str)
    ensures
        r@ == os_token_spec(os),
{
    match os {
        Os::Mac => "apple-darwin",
        Os::Linux => "unknown-linux-gnu",
        Os::Windows => "pc-windows-msvc",
    }
}

pub fn suffix_token(os: Os) -> (r: &'static str)
    ensures
        r@ == suffix_spec(os),
{
    match os {
        Os::Windows => "zip",
        _ => "tar.gz",
    }
}

/// Builds `ty-<arch>-<os>`, the stem shared by the asset file name and the
/// directory the archive unpacks to.
pub fn asset_stem(os: Os, arch: Arch) -> (r: String)
    ensures
        r@ == asset_stem_spec(os, arch),
{
    let mut s = String::from_str("ty-");
    s.append(arch_token(arch));
    s.append("-");
    s.append(os_token(os));
    s
}

/// Builds the full asset file name `ty-<arch>-<os>.<suffix>`. The match on
/// the platform enums is exhaustive: an unsupported pair cannot slip through
/// to a default.
pub fn asset_name(os: Os, arch: Arch) -> (r: String)
    ensures
        r@ == asset_name_spec(os, arch),
{
    let mut s = asset_stem(os, arch);
    s.append(".");
    s.append(suffix_token(os));
    s
}

} // verus!
