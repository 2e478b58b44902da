use vstd::prelude::*;
use vstd::string::{StrSliceExecFns, StringExecFns};
use crate::error::{outcome_view, ResolveError, ResolveErrorView};
use crate::platform::{arch_tag, os_tag, Architecture, Os};

verus! {

/// A release version without its marker: every `v` is taken out, wherever it
/// stands, and the other characters keep their order.
pub open spec fn normalized(version: Seq<char>) -> Seq<char> {
    version.filter(kept_in_version())
}

/// Which characters of a version string stay: all but the marker `v`.
pub open spec fn kept_in_version() -> spec_fn(char) -> bool {
    |c: char| c != 'v'
}

/// `ledger-language-server-{version}-{os}-{arch}`.
pub open spec fn asset_name_of(version: Seq<char>, os: Seq<char>, arch: Seq<char>) -> Seq<char> {
    "ledger-language-server-"@ + version + "-"@ + os + "-"@ + arch
}

/// The asset that a release publishes for a platform, or why it has none. An
/// unsupported operating system is reported before an unsupported processor.
pub open spec fn platform_asset_name(raw_version: Seq<char>, os: Os, arch: Architecture) -> Result<
    Seq<char>,
    ResolveErrorView,
> {
    match (os_tag(os), arch_tag(arch)) {
        (Err(e), _) => Err(e),
        (Ok(_), Err(e)) => Err(e),
        (Ok(o), Ok(a)) => Ok(asset_name_of(normalized(raw_version), o, a)),
    }
}

/// `ledger-language-server-{raw version}`: the directory of one release.
pub open spec fn version_dir_of(raw_version: Seq<char>) -> Seq<char> {
    "ledger-language-server-"@ + raw_version
}

/// Removes every `v` from a release's version string.
pub fn normalize_version(version: &str) -> (r: String)
    ensures
        r@ == normalized(version@),
        !r@.contains('v'),
        r@.len() <= version@.len(),
{
    let n: usize = version.unicode_len();
    let mut out = String::new();
    let mut i: usize = 0;
    proof {
        reveal(Seq::filter);
        assert(version@.take(0) =~= Seq::<char>::empty());
    }
    while i < n
        invariant
            n == version@.len(),
            i <= n,
            out@ == normalized(version@.take(i as int)),
        decreases n - i,
    {
        let c = version.get_char(i);
        proof {
            reveal(Seq::filter);
            assert(version@.take(i + 1).drop_last() =~= version@.take(i as int));
            assert(version@.take(i + 1).last() == c);
        }
        if c != 'v' {
            out.append(version.substring_char(i, i + 1));
            assert(version@.subrange(i as int, i + 1) =~= seq![c]);
            assert(out@ =~= normalized(version@.take(i as int)).push(c));
        }
        i = i + 1;
    }
    proof {
        assert(version@.take(n as int) =~= version@);
        let keep = kept_in_version();
        version@.lemma_filter_len(keep);
        if out@.contains('v') {
            version@.lemma_filter_pred(keep, out@.index_of('v'));
        }
    }
    out
}

/// Builds the name of the asset for one version and one pair of tokens.
pub fn asset_name(version: &str, os: &str, arch: &str) -> (r: String)
    ensures
        r@ == asset_name_of(version@, os@, arch@),
{
    let mut out = String::from_str("ledger-language-server-");
    out.append(version);
    out.append("-");
    out.append(os);
    out.append("-");
    out.append(arch);
    out
}

/// Names the asset that the release `raw_version` publishes for the platform,
/// or says which half of the platform has no build.
pub fn asset_name_for_platform(raw_version: &str, os: Os, arch: Architecture) -> (r: Result<
    String,
    ResolveError,
>)
    ensures
        outcome_view(r) == platform_asset_name(raw_version@, os, arch),
{
    let os_token = match os.tag() {
        Ok(t) => t,
        Err(e) => { return Err(e); },
    };
    let arch_token = match arch.tag() {
        Ok(t) => t,
        Err(e) => { return Err(e); },
    };
    let version = normalize_version(raw_version);
    Ok(asset_name(version.as_str(), os_token.as_str(), arch_token.as_str()))
}

/// Names the directory that namespaces one release. The raw version is used,
/// marker included.
pub fn version_dir_name(raw_version: &str) -> (r: String)
    ensures
        r@ == version_dir_of(raw_version@),
{
    let mut out = String::from_str("ledger-language-server-");
    out.append(raw_version);
    out
}

/// On each supported platform the asset is named
/// `ledger-language-server-{version}-{os}-{arch}`, the version without its
/// marker, with `apple` or `linux` for the operating system and `aarch64` or
/// `x86_64` for the processor.
pub proof fn supported_platforms_name_their_asset(raw_version: Seq<char>)
    ensures
        platform_asset_name(raw_version, Os::Mac, Architecture::Aarch64) == Ok::<
            Seq<char>,
            ResolveErrorView,
        >(asset_name_of(normalized(raw_version), "apple"@, "aarch64"@)),
        platform_asset_name(raw_version, Os::Mac, Architecture::X8664) == Ok::<
            Seq<char>,
            ResolveErrorView,
        >(asset_name_of(normalized(raw_version), "apple"@, "x86_64"@)),
        platform_asset_name(raw_version, Os::Linux, Architecture::Aarch64) == Ok::<
            Seq<char>,
            ResolveErrorView,
        >(asset_name_of(normalized(raw_version), "linux"@, "aarch64"@)),
        platform_asset_name(raw_version, Os::Linux, Architecture::X8664) == Ok::<
            Seq<char>,
            ResolveErrorView,
        >(asset_name_of(normalized(raw_version), "linux"@, "x86_64"@)),
{
}

/// A platform without a build is never given an asset name: Windows is
/// refused as a platform, and 32-bit x86 elsewhere as an architecture.
pub proof fn unsupported_platforms_have_no_asset(
    raw_version: Seq<char>,
    os: Os,
    arch: Architecture,
)
    requires
        os == Os::Windows || arch == Architecture::X86,
    ensures
        platform_asset_name(raw_version, os, arch) == Err::<Seq<char>, ResolveErrorView>(
            if os == Os::Windows {
                ResolveErrorView::UnsupportedPlatform
            } else {
                ResolveErrorView::UnsupportedArchitecture
            },
        ),
{
}

} // verus!
