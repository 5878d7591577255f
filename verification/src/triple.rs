//! The target-triple value types: the portable (zig-style) triple with its
//! field vocabularies, and the native (rust-style) target it maps to.

use vstd::prelude::*;
use vstd::string::*;

use crate::error::TripleError;
use crate::text::{dash_free, str_eq};

verus! {

/// A portable architecture tag.
#[derive(Debug, Clone, Copy, PartialEq, Eq, Structural)]
pub enum Arch {
    X86,
    X64,
    Arm,
    Aarch64,
}

/// A portable operating-system tag.
#[derive(Debug, Clone, Copy, PartialEq, Eq, Structural)]
pub enum Os {
    Linux,
    MacOS,
    Windows,
}

/// A portable ABI tag.
#[derive(Debug, Clone, Copy, PartialEq, Eq, Structural)]
pub enum Abi {
    Gnu,
    /// Linux only.
    Musl,
    /// Should only be used for Mac.
    NoneAbi,
}

/// The architecture as the native build system names it (`x86` becomes
/// `i686`, the rest keep their names).
#[derive(Debug, Clone, Copy, PartialEq, Eq, Structural)]
pub enum RustArch {
    I686,
    X64,
    Arm,
    Aarch64,
}

/// The vendor segment the native naming convention inserts.
#[derive(Debug, Clone, Copy, PartialEq, Eq, Structural)]
pub enum RustVendor {
    Pc,
    Apple,
    Unknown,
}

/// The operating system as the native build system names it (`macos`
/// becomes `darwin`, the rest keep their names).
#[derive(Debug, Clone, Copy, PartialEq, Eq, Structural)]
pub enum RustOs {
    Linux,
    Darwin,
    Windows,
}

/// The ABI as the native build system names it.
#[derive(Debug, Clone, Copy, PartialEq, Eq, Structural)]
pub enum RustAbi {
    Gnu,
    Musl,
    /// The gnu ABI is spelled differently between ARM and x86 on Windows,
    /// e.g. `x86_64-pc-windows-gnu` vs `aarch64-pc-windows-gnullvm`.
    GnuLlvm,
}

/// A portable `arch-os-abi` triple.
#[derive(Debug, Clone, Copy, PartialEq, Eq, Structural)]
pub struct ZigTriple {
    pub arch: Arch,
    pub os: Os,
    pub abi: Abi,
}

/// The same target in the native build system's vendor-aware naming. The
/// ABI segment is omitted entirely for apple targets.
#[derive(Debug, Clone, Copy)]
pub struct RustTarget {
    pub arch: RustArch,
    pub vendor: RustVendor,
    pub os: RustOs,
    pub abi: Option<RustAbi>,
}

/// The canonical spelling of a portable architecture tag.
pub open spec fn arch_name(a: Arch) -> Seq<char> {
    match a {
        Arch::X86 => "x86"@,
        Arch::X64 => "x86_64"@,
        Arch::Arm => "arm"@,
        Arch::Aarch64 => "aarch64"@,
    }
}

/// The canonical spelling of a portable operating-system tag.
pub open spec fn os_name(o: Os) -> Seq<char> {
    match o {
        Os::Linux => "linux"@,
        Os::MacOS => "macos"@,
        Os::Windows => "windows"@,
    }
}

/// The canonical spelling of a portable ABI tag.
pub open spec fn abi_name(a: Abi) -> Seq<char> {
    match a {
        Abi::Gnu => "gnu"@,
        Abi::Musl => "musl"@,
        Abi::NoneAbi => "none"@,
    }
}

/// The architecture token vocabulary: which tag, if any, a raw token names.
pub open spec fn arch_of_token(tok: Seq<char>) -> Option<Arch> {
    if tok == "x86"@ {
        Some(Arch::X86)
    } else if tok == "x86_64"@ {
        Some(Arch::X64)
    } else if tok == "arm"@ {
        Some(Arch::Arm)
    } else if tok == "aarch64"@ {
        Some(Arch::Aarch64)
    } else {
        None
    }
}

/// The operating-system token vocabulary.
pub open spec fn os_of_token(tok: Seq<char>) -> Option<Os> {
    if tok == "linux"@ {
        Some(Os::Linux)
    } else if tok == "macos"@ {
        Some(Os::MacOS)
    } else if tok == "windows"@ {
        Some(Os::Windows)
    } else {
        None
    }
}

/// The ABI token vocabulary.
pub open spec fn abi_of_token(tok: Seq<char>) -> Option<Abi> {
    if tok == "gnu"@ {
        Some(Abi::Gnu)
    } else if tok == "musl"@ {
        Some(Abi::Musl)
    } else if tok == "none"@ {
        Some(Abi::NoneAbi)
    } else {
        None
    }
}

/// The ABI a 2-piece triple defaults to, chosen by operating system:
/// musl on linux (the portability default), none on macos, gnu on windows.
pub open spec fn default_abi(o: Os) -> Abi {
    match o {
        Os::Linux => Abi::Musl,
        Os::MacOS => Abi::NoneAbi,
        Os::Windows => Abi::Gnu,
    }
}

impl Arch {
    /// Parse an architecture token, or report it verbatim as unrecognized.
    pub fn new(raw: &str) -> (r: Result<Arch, TripleError>)
        ensures
            match r {
                Ok(a) => arch_of_token(raw@) == Some(a),
                Err(e) => arch_of_token(raw@) is None && (e matches
                    TripleError::UnrecognizedArchitecture(t) && t@ == raw@),
            },
    {
        if str_eq(raw, "x86") {
            Ok(Arch::X86)
        } else if str_eq(raw, "x86_64") {
            Ok(Arch::X64)
        } else if str_eq(raw, "arm") {
            Ok(Arch::Arm)
        } else if str_eq(raw, "aarch64") {
            Ok(Arch::Aarch64)
        } else {
            Err(TripleError::UnrecognizedArchitecture(String::from_str(raw)))
        }
    }

    /// The canonical spelling of this tag.
    pub fn name(&self) -> (r: &'static str)
        ensures
            r@ == arch_name(*self),
    {
        match self {
            Arch::X86 => "x86",
            Arch::X64 => "x86_64",
            Arch::Arm => "arm",
            Arch::Aarch64 => "aarch64",
        }
    }
}

impl Os {
    /// Parse an operating-system token written in the zig/clang triple
    /// naming convention (e.g. `macos` as in `aarch64-macos-none`, where
    /// rustup would say `apple` as in `aarch64-apple-darwin`), or report it
    /// verbatim as unrecognized.
    pub fn from_zig(raw: &str) -> (r: Result<Os, TripleError>)
        ensures
            match r {
                Ok(o) => os_of_token(raw@) == Some(o),
                Err(e) => os_of_token(raw@) is None && (e matches TripleError::UnrecognizedOS(t)
                    && t@ == raw@),
            },
    {
        if str_eq(raw, "linux") {
            Ok(Os::Linux)
        } else if str_eq(raw, "macos") {
            Ok(Os::MacOS)
        } else if str_eq(raw, "windows") {
            Ok(Os::Windows)
        } else {
            Err(TripleError::UnrecognizedOS(String::from_str(raw)))
        }
    }

    /// The canonical spelling of this tag.
    pub fn name(&self) -> (r: &'static str)
        ensures
            r@ == os_name(*self),
    {
        match self {
            Os::Linux => "linux",
            Os::MacOS => "macos",
            Os::Windows => "windows",
        }
    }
}

impl Abi {
    /// Parse an ABI token, or report it verbatim as unrecognized.
    pub fn new(raw: &str) -> (r: Result<Abi, TripleError>)
        ensures
            match r {
                Ok(a) => abi_of_token(raw@) == Some(a),
                Err(e) => abi_of_token(raw@) is None && (e matches TripleError::UnrecognizedAbi(t)
                    && t@ == raw@),
            },
    {
        if str_eq(raw, "gnu") {
            Ok(Abi::Gnu)
        } else if str_eq(raw, "musl") {
            Ok(Abi::Musl)
        } else if str_eq(raw, "none") {
            Ok(Abi::NoneAbi)
        } else {
            Err(TripleError::UnrecognizedAbi(String::from_str(raw)))
        }
    }

    /// The ABI a 2-piece triple defaults to for the given operating system.
    pub fn default_for_os(os: &Os) -> (r: Abi)
        ensures
            r == default_abi(*os),
    {
        match os {
            Os::Linux => Abi::Musl,
            Os::MacOS => Abi::NoneAbi,
            Os::Windows => Abi::Gnu,
        }
    }

    /// The canonical spelling of this tag.
    pub fn name(&self) -> (r: &'static str)
        ensures
            r@ == abi_name(*self),
    {
        match self {
            Abi::Gnu => "gnu",
            Abi::Musl => "musl",
            Abi::NoneAbi => "none",
        }
    }
}

impl RustArch {
    /// The native spelling of this tag.
    pub fn name(&self) -> (r: &'static str)
        ensures
            r@ == rust_arch_name(*self),
    {
        match self {
            RustArch::I686 => "i686",
            RustArch::X64 => "x86_64",
            RustArch::Arm => "arm",
            RustArch::Aarch64 => "aarch64",
        }
    }
}

impl RustVendor {
    /// The native spelling of this tag.
    pub fn name(&self) -> (r: &'static str)
        ensures
            r@ == rust_vendor_name(*self),
    {
        match self {
            RustVendor::Pc => "pc",
            RustVendor::Apple => "apple",
            RustVendor::Unknown => "unknown",
        }
    }
}

impl RustOs {
    /// The native spelling of this tag.
    pub fn name(&self) -> (r: &'static str)
        ensures
            r@ == rust_os_name(*self),
    {
        match self {
            RustOs::Linux => "linux",
            RustOs::Darwin => "darwin",
            RustOs::Windows => "windows",
        }
    }
}

impl RustAbi {
    /// The native spelling of this tag.
    pub fn name(&self) -> (r: &'static str)
        ensures
            r@ == rust_abi_name(*self),
    {
        match self {
            RustAbi::Gnu => "gnu",
            RustAbi::Musl => "musl",
            RustAbi::GnuLlvm => "gnullvm",
        }
    }
}

/// The native spelling of a native architecture tag.
pub open spec fn rust_arch_name(a: RustArch) -> Seq<char> {
    match a {
        RustArch::I686 => "i686"@,
        RustArch::X64 => "x86_64"@,
        RustArch::Arm => "arm"@,
        RustArch::Aarch64 => "aarch64"@,
    }
}

/// The native spelling of a vendor tag.
pub open spec fn rust_vendor_name(v: RustVendor) -> Seq<char> {
    match v {
        RustVendor::Pc => "pc"@,
        RustVendor::Apple => "apple"@,
        RustVendor::Unknown => "unknown"@,
    }
}

/// The native spelling of a native operating-system tag.
pub open spec fn rust_os_name(o: RustOs) -> Seq<char> {
    match o {
        RustOs::Linux => "linux"@,
        RustOs::Darwin => "darwin"@,
        RustOs::Windows => "windows"@,
    }
}

/// The native spelling of a native ABI tag.
pub open spec fn rust_abi_name(a: RustAbi) -> Seq<char> {
    match a {
        RustAbi::Gnu => "gnu"@,
        RustAbi::Musl => "musl"@,
        RustAbi::GnuLlvm => "gnullvm"@,
    }
}

/// No canonical field spelling contains the `'-'` separator, so a
/// rendered triple splits back into exactly its three fields.
pub proof fn lemma_names_dash_free(z: ZigTriple)
    ensures
        dash_free(arch_name(z.arch)),
        dash_free(os_name(z.os)),
        dash_free(abi_name(z.abi)),
{
    reveal_strlit("x86");
    reveal_strlit("x86_64");
    reveal_strlit("arm");
    reveal_strlit("aarch64");
    reveal_strlit("linux");
    reveal_strlit("macos");
    reveal_strlit("windows");
    reveal_strlit("gnu");
    reveal_strlit("musl");
    reveal_strlit("none");
}

/// Each canonical field spelling parses back to its own tag.
pub proof fn lemma_names_parse(z: ZigTriple)
    ensures
        arch_of_token(arch_name(z.arch)) == Some(z.arch),
        os_of_token(os_name(z.os)) == Some(z.os),
        abi_of_token(abi_name(z.abi)) == Some(z.abi),
{
    reveal_strlit("x86");
    reveal_strlit("x86_64");
    reveal_strlit("arm");
    reveal_strlit("aarch64");
    reveal_strlit("linux");
    reveal_strlit("macos");
    reveal_strlit("windows");
    reveal_strlit("gnu");
    reveal_strlit("musl");
    reveal_strlit("none");
    assert("x86"@.len() == 3);
    assert("x86_64"@.len() == 6);
    assert("arm"@.len() == 3);
    assert("aarch64"@.len() == 7);
    assert("arm"@[0] == 'a');
    assert("x86"@[0] == 'x');
    assert("linux"@.len() == 5);
    assert("macos"@.len() == 5);
    assert("windows"@.len() == 7);
    assert("linux"@[0] == 'l');
    assert("macos"@[0] == 'm');
    assert("gnu"@.len() == 3);
    assert("musl"@.len() == 4);
    assert("none"@.len() == 4);
    assert("musl"@[0] == 'm');
    assert("none"@[0] == 'n');
}

/// A portable triple rendered as `arch-os-abi`.
pub open spec fn zig_render(z: ZigTriple) -> Seq<char> {
    arch_name(z.arch) + "-"@ + os_name(z.os) + "-"@ + abi_name(z.abi)
}

/// A native target rendered as `arch-vendor-os[-abi]`, the ABI segment
/// omitted when absent.
pub open spec fn rust_render(t: RustTarget) -> Seq<char> {
    let base = rust_arch_name(t.arch) + "-"@ + rust_vendor_name(t.vendor) + "-"@ + rust_os_name(
        t.os,
    );
    match t.abi {
        Some(ab) => base + "-"@ + rust_abi_name(ab),
        None => base,
    }
}

impl ZigTriple {
    /// Render this triple as its canonical `arch-os-abi` string.
    pub fn str(&self) -> (r: String)
        ensures
            r@ == zig_render(*self),
    {
        let mut s = String::from_str(self.arch.name());
        s.append("-");
        s.append(self.os.name());
        s.append("-");
        s.append(self.abi.name());
        proof {
            assert(s@ =~= zig_render(*self));
        }
        s
    }
}

impl RustTarget {
    /// Render this target as its native `arch-vendor-os[-abi]` string.
    pub fn str(&self) -> (r: String)
        ensures
            r@ == rust_render(*self),
    {
        let mut s = String::from_str(self.arch.name());
        s.append("-");
        s.append(self.vendor.name());
        s.append("-");
        s.append(self.os.name());
        if let Some(ab) = &self.abi {
            s.append("-");
            s.append(ab.name());
        }
        proof {
            assert(s@ =~= rust_render(*self));
        }
        s
    }
}

} // verus!
