use vstd::prelude::*;

verus! {

/// Operating systems that the release feed publishes binaries for.
#[derive(Clone, Copy, Debug, PartialEq, Eq, Structural)]
pub enum Os {
    Mac,
    Linux,
    Windows,
}

/// CPU architectures that the release feed publishes binaries for.
#[derive(Clone, Copy, Debug, PartialEq, Eq, Structural)]
pub enum Arch {
    Aarch64,
    X86,
    X8664,
}

/// How a downloaded release archive is unpacked.
#[derive(Clone, Copy, Debug, PartialEq, Eq, Structural)]
pub enum ArchiveKind {
    GzipTar,
    Zip,
}

/// The operating-system word of the asset naming convention.
pub open spec fn os_token(os: Os) -> Seq<char> {
    match os {
        Os::Mac => "Darwin"@,
        Os::Linux => "Linux"@,
        Os::Windows => "Windows"@,
    }
}

/// The architecture word of the asset naming convention.
pub open spec fn arch_token(arch: Arch) -> Seq<char> {
    match arch {
        Arch::Aarch64 => "arm64"@,
        Arch::X86 => "i386"@,
        Arch::X8664 => "x86_64"@,
    }
}

/// The archive extension used for an operating system.
pub open spec fn extension_token(os: Os) -> Seq<char> {
    match os {
        Os::Mac | Os::Linux => "tar.gz"@,
        Os::Windows => "zip"@,
    }
}

pub open spec fn spec_archive_kind(os: Os) -> ArchiveKind {
    match os {
        Os::Mac | Os::Linux => ArchiveKind::GzipTar,
        Os::Windows => ArchiveKind::Zip,
    }
}

/// The operating-system word for `os`.
pub fn os_name(os: Os) -> (r: String)
    ensures
        r@ == os_token(os),
{
    match os {
        Os::Mac => String::from_str("Darwin"),
        Os::Linux => String::from_str("Linux"),
        Os::Windows => String::from_str("Windows"),
    }
}

/// The architecture word for `arch`.
pub fn arch_name(arch: Arch) -> (r: String)
    ensures
        r@ == arch_token(arch),
{
    match arch {
        Arch::Aarch64 => String::from_str("arm64"),
        Arch::X86 => String::from_str("i386"),
        Arch::X8664 => String::from_str("x86_64"),
    }
}

/// The archive extension for `os`.
pub fn extension_name(os: Os) -> (r: String)
    ensures
        r@ == extension_token(os),
{
    match os {
        Os::Mac | Os::Linux => String::from_str("tar.gz"),
        Os::Windows => String::from_str("zip"),
    }
}

/// How archives published for `os` are unpacked.
pub fn archive_kind(os: Os) -> (r: ArchiveKind)
    ensures
        r == spec_archive_kind(os),
{
    match os {
        Os::Mac | Os::Linux => ArchiveKind::GzipTar,
        Os::Windows => ArchiveKind::Zip,
    }
}

/// The operating-system word, architecture word and archive extension of a platform.
pub fn platform_tokens(os: Os, arch: Arch) -> (r: (String, String, String))
    ensures
        r.0@ == os_token(os),
        r.1@ == arch_token(arch),
        r.2@ == extension_token(os),
        r.0@.len() > 0 && r.1@.len() > 0 && r.2@.len() > 0,
{
    proof {
        lemma_platform_tokens_nonempty(os, arch);
    }
    (os_name(os), arch_name(arch), extension_name(os))
}

/// Every supported platform maps to three non-empty words, and the extension agrees
/// with the way the archive is unpacked.
pub proof fn lemma_platform_tokens_nonempty(os: Os, arch: Arch)
    ensures
        os_token(os).len() > 0,
        arch_token(arch).len() > 0,
        extension_token(os).len() > 0,
        (extension_token(os) == "zip"@) <==> (spec_archive_kind(os) == ArchiveKind::Zip),
{
    reveal_strlit("Darwin");
    reveal_strlit("Linux");
    reveal_strlit("Windows");
    reveal_strlit("arm64");
    reveal_strlit("i386");
    reveal_strlit("x86_64");
    reveal_strlit("tar.gz");
    reveal_strlit("zip");
    if os != Os::Windows {
        assert("tar.gz"@[0] != "zip"@[0]);
    }
}

} // verus!
