//! The allow-list registry: the fixed, hand-curated table of supported
//! portable triples paired with their native counterparts, and the lookup
//! over it. A native triple is only ever produced through this table, so the
//! two representations cannot diverge outside it.

use vstd::prelude::*;

use crate::triple::{Abi, Arch, Os, RustAbi, RustArch, RustOs, RustTarget, RustVendor, ZigTriple};

verus! {

/// An immutable pairing of a portable triple with its native counterpart.
#[derive(Debug, Clone, Copy)]
pub struct AllowListEntry {
    pub zig: ZigTriple,
    pub rust: RustTarget,
}

/// The exhaustive list of what is allowed, and how each triple maps to a
/// native target.
pub open spec fn allow_list() -> Seq<AllowListEntry> {
    seq![
        AllowListEntry {
            zig: ZigTriple { arch: Arch::X86, os: Os::Windows, abi: Abi::Gnu },
            rust: RustTarget {
                arch: RustArch::I686,
                vendor: RustVendor::Pc,
                os: RustOs::Windows,
                abi: Some(RustAbi::Gnu),
            },
        },
        AllowListEntry {
            zig: ZigTriple { arch: Arch::X64, os: Os::Windows, abi: Abi::Gnu },
            rust: RustTarget {
                arch: RustArch::X64,
                vendor: RustVendor::Pc,
                os: RustOs::Windows,
                abi: Some(RustAbi::Gnu),
            },
        },
        AllowListEntry {
            zig: ZigTriple { arch: Arch::Aarch64, os: Os::Windows, abi: Abi::Gnu },
            rust: RustTarget {
                arch: RustArch::Aarch64,
                vendor: RustVendor::Pc,
                os: RustOs::Windows,
                abi: Some(RustAbi::GnuLlvm),
            },
        },
        AllowListEntry {
            zig: ZigTriple { arch: Arch::X64, os: Os::MacOS, abi: Abi::NoneAbi },
            rust: RustTarget {
                arch: RustArch::X64,
                vendor: RustVendor::Apple,
                os: RustOs::Darwin,
                abi: None,
            },
        },
        AllowListEntry {
            zig: ZigTriple { arch: Arch::Aarch64, os: Os::MacOS, abi: Abi::NoneAbi },
            rust: RustTarget {
                arch: RustArch::Aarch64,
                vendor: RustVendor::Apple,
                os: RustOs::Darwin,
                abi: None,
            },
        },
        AllowListEntry {
            zig: ZigTriple { arch: Arch::X86, os: Os::Linux, abi: Abi::Gnu },
            rust: RustTarget {
                arch: RustArch::I686,
                vendor: RustVendor::Unknown,
                os: RustOs::Linux,
                abi: Some(RustAbi::Gnu),
            },
        },
        AllowListEntry {
            zig: ZigTriple { arch: Arch::X64, os: Os::Linux, abi: Abi::Gnu },
            rust: RustTarget {
                arch: RustArch::X64,
                vendor: RustVendor::Unknown,
                os: RustOs::Linux,
                abi: Some(RustAbi::Gnu),
            },
        },
        AllowListEntry {
            zig: ZigTriple { arch: Arch::Arm, os: Os::Linux, abi: Abi::Gnu },
            rust: RustTarget {
                arch: RustArch::Arm,
                vendor: RustVendor::Unknown,
                os: RustOs::Linux,
                abi: Some(RustAbi::Gnu),
            },
        },
        AllowListEntry {
            zig: ZigTriple { arch: Arch::Aarch64, os: Os::Linux, abi: Abi::Gnu },
            rust: RustTarget {
                arch: RustArch::Aarch64,
                vendor: RustVendor::Unknown,
                os: RustOs::Linux,
                abi: Some(RustAbi::Gnu),
            },
        },
        AllowListEntry {
            zig: ZigTriple { arch: Arch::X86, os: Os::Linux, abi: Abi::Musl },
            rust: RustTarget {
                arch: RustArch::I686,
                vendor: RustVendor::Unknown,
                os: RustOs::Linux,
                abi: Some(RustAbi::Musl),
            },
        },
        AllowListEntry {
            zig: ZigTriple { arch: Arch::X64, os: Os::Linux, abi: Abi::Musl },
            rust: RustTarget {
                arch: RustArch::X64,
                vendor: RustVendor::Unknown,
                os: RustOs::Linux,
                abi: Some(RustAbi::Musl),
            },
        },
        AllowListEntry {
            zig: ZigTriple { arch: Arch::Arm, os: Os::Linux, abi: Abi::Musl },
            rust: RustTarget {
                arch: RustArch::Arm,
                vendor: RustVendor::Unknown,
                os: RustOs::Linux,
                abi: Some(RustAbi::Musl),
            },
        },
        AllowListEntry {
            zig: ZigTriple { arch: Arch::Aarch64, os: Os::Linux, abi: Abi::Musl },
            rust: RustTarget {
                arch: RustArch::Aarch64,
                vendor: RustVendor::Unknown,
                os: RustOs::Linux,
                abi: Some(RustAbi::Musl),
            },
        },
    ]
}

/// Linear scan: the first entry whose portable triple equals the candidate.
pub open spec fn scan(entries: Seq<AllowListEntry>, candidate: ZigTriple) -> Option<AllowListEntry>
    decreases entries.len(),
{
    if entries.len() == 0 {
        None
    } else if entries[0].zig == candidate {
        Some(entries[0])
    } else {
        scan(entries.drop_first(), candidate)
    }
}

/// A hit of the scan matches the candidate and is itself an entry of the
/// list.
pub proof fn lemma_scan_hit(entries: Seq<AllowListEntry>, candidate: ZigTriple)
    ensures
        scan(entries, candidate) matches Some(e) ==> e.zig == candidate && exists|i: int|
            0 <= i < entries.len() && entries[i] == e,
    decreases entries.len(),
{
    if entries.len() != 0 {
        if entries[0].zig != candidate {
            lemma_scan_hit(entries.drop_first(), candidate);
            if let Some(e) = scan(entries.drop_first(), candidate) {
                let j = choose|j: int|
                    0 <= j < entries.drop_first().len() && entries.drop_first()[j] == e;
                assert(entries[j + 1] == e);
            }
        }
    }
}

/// The scan misses exactly when no entry matches the candidate.
pub proof fn lemma_scan_none(entries: Seq<AllowListEntry>, candidate: ZigTriple)
    ensures
        scan(entries, candidate) is None <==> forall|i: int|
            0 <= i < entries.len() ==> (#[trigger] entries[i]).zig != candidate,
    decreases entries.len(),
{
    if entries.len() != 0 && entries[0].zig != candidate {
        lemma_scan_none(entries.drop_first(), candidate);
        assert(forall|i: int|
            1 <= i < entries.len() ==> #[trigger] entries[i] == entries.drop_first()[i - 1]);
    }
}

/// When no earlier entry shares entry `i`'s portable triple, the scan for
/// that triple finds exactly entry `i`.
pub proof fn lemma_scan_finds(entries: Seq<AllowListEntry>, i: int)
    requires
        0 <= i < entries.len(),
        forall|j: int| 0 <= j < i ==> (#[trigger] entries[j]).zig != entries[i].zig,
    ensures
        scan(entries, entries[i].zig) == Some(entries[i]),
    decreases i,
{
    if i > 0 {
        assert(forall|j: int|
            0 <= j < i - 1 ==> (#[trigger] entries.drop_first()[j]).zig == entries[j + 1].zig);
        lemma_scan_finds(entries.drop_first(), i - 1);
    }
}

/// No two entries of the allow-list share a portable triple, so the linear
/// scan never shadows one entry with another.
pub proof fn lemma_allow_list_distinct()
    ensures
        forall|i: int, j: int|
            0 <= i < j < allow_list().len() ==> (#[trigger] allow_list()[i]).zig != (
            #[trigger] allow_list()[j]).zig,
{
}

/// The allow-list as a vector, for the executable scan.
pub fn allow_list_entries() -> (v: Vec<AllowListEntry>)
    ensures
        v@ == allow_list(),
{
    let mut v: Vec<AllowListEntry> = Vec::new();
    v.push(
        AllowListEntry {
            zig: ZigTriple { arch: Arch::X86, os: Os::Windows, abi: Abi::Gnu },
            rust: RustTarget {
                arch: RustArch::I686,
                vendor: RustVendor::Pc,
                os: RustOs::Windows,
                abi: Some(RustAbi::Gnu),
            },
        },
    );
    v.push(
        AllowListEntry {
            zig: ZigTriple { arch: Arch::X64, os: Os::Windows, abi: Abi::Gnu },
            rust: RustTarget {
                arch: RustArch::X64,
                vendor: RustVendor::Pc,
                os: RustOs::Windows,
                abi: Some(RustAbi::Gnu),
            },
        },
    );
    v.push(
        AllowListEntry {
            zig: ZigTriple { arch: Arch::Aarch64, os: Os::Windows, abi: Abi::Gnu },
            rust: RustTarget {
                arch: RustArch::Aarch64,
                vendor: RustVendor::Pc,
                os: RustOs::Windows,
                abi: Some(RustAbi::GnuLlvm),
            },
        },
    );
    v.push(
        AllowListEntry {
            zig: ZigTriple { arch: Arch::X64, os: Os::MacOS, abi: Abi::NoneAbi },
            rust: RustTarget {
                arch: RustArch::X64,
                vendor: RustVendor::Apple,
                os: RustOs::Darwin,
                abi: None,
            },
        },
    );
    v.push(
        AllowListEntry {
            zig: ZigTriple { arch: Arch::Aarch64, os: Os::MacOS, abi: Abi::NoneAbi },
            rust: RustTarget {
                arch: RustArch::Aarch64,
                vendor: RustVendor::Apple,
                os: RustOs::Darwin,
                abi: None,
            },
        },
    );
    v.push(
        AllowListEntry {
            zig: ZigTriple { arch: Arch::X86, os: Os::Linux, abi: Abi::Gnu },
            rust: RustTarget {
                arch: RustArch::I686,
                vendor: RustVendor::Unknown,
                os: RustOs::Linux,
                abi: Some(RustAbi::Gnu),
            },
        },
    );
    v.push(
        AllowListEntry {
            zig: ZigTriple { arch: Arch::X64, os: Os::Linux, abi: Abi::Gnu },
            rust: RustTarget {
                arch: RustArch::X64,
                vendor: RustVendor::Unknown,
                os: RustOs::Linux,
                abi: Some(RustAbi::Gnu),
            },
        },
    );
    v.push(
        AllowListEntry {
            zig: ZigTriple { arch: Arch::Arm, os: Os::Linux, abi: Abi::Gnu },
            rust: RustTarget {
                arch: RustArch::Arm,
                vendor: RustVendor::Unknown,
                os: RustOs::Linux,
                abi: Some(RustAbi::Gnu),
            },
        },
    );
    v.push(
        AllowListEntry {
            zig: ZigTriple { arch: Arch::Aarch64, os: Os::Linux, abi: Abi::Gnu },
            rust: RustTarget {
                arch: RustArch::Aarch64,
                vendor: RustVendor::Unknown,
                os: RustOs::Linux,
                abi: Some(RustAbi::Gnu),
            },
        },
    );
    v.push(
        AllowListEntry {
            zig: ZigTriple { arch: Arch::X86, os: Os::Linux, abi: Abi::Musl },
            rust: RustTarget {
                arch: RustArch::I686,
                vendor: RustVendor::Unknown,
                os: RustOs::Linux,
                abi: Some(RustAbi::Musl),
            },
        },
    );
    v.push(
        AllowListEntry {
            zig: ZigTriple { arch: Arch::X64, os: Os::Linux, abi: Abi::Musl },
            rust: RustTarget {
                arch: RustArch::X64,
                vendor: RustVendor::Unknown,
                os: RustOs::Linux,
                abi: Some(RustAbi::Musl),
            },
        },
    );
    v.push(
        AllowListEntry {
            zig: ZigTriple { arch: Arch::Arm, os: Os::Linux, abi: Abi::Musl },
            rust: RustTarget {
                arch: RustArch::Arm,
                vendor: RustVendor::Unknown,
                os: RustOs::Linux,
                abi: Some(RustAbi::Musl),
            },
        },
    );
    v.push(
        AllowListEntry {
            zig: ZigTriple { arch: Arch::Aarch64, os: Os::Linux, abi: Abi::Musl },
            rust: RustTarget {
                arch: RustArch::Aarch64,
                vendor: RustVendor::Unknown,
                os: RustOs::Linux,
                abi: Some(RustAbi::Musl),
            },
        },
    );
    proof {
        assert(v@ =~= allow_list());
    }
    v
}

/// Look a candidate up in the allow-list by exact match on all three
/// fields: no partial matching, no nearest-match suggestions. A hit returns
/// the pairing from the table itself.
pub fn resolve(candidate: &ZigTriple) -> (r: Option<(ZigTriple, RustTarget)>)
    ensures
        match scan(allow_list(), *candidate) {
            Some(e) => r == Some((e.zig, e.rust)),
            None => r is None,
        },
{
    let table = allow_list_entries();
    let n = table.len();
    let mut i: usize = 0;
    proof {
        assert(allow_list().skip(0) =~= allow_list());
    }
    while i < n
        invariant
            i <= n,
            n == allow_list().len(),
            table@ == allow_list(),
            scan(allow_list(), *candidate) == scan(allow_list().skip(i as int), *candidate),
        decreases n - i,
    {
        let e = table[i];
        if e.zig == *candidate {
            return Some((e.zig, e.rust));
        }
        proof {
            assert(allow_list().skip(i as int).drop_first() =~= allow_list().skip(i + 1));
        }
        i = i + 1;
    }
    proof {
        assert(allow_list().skip(n as int) =~= Seq::<AllowListEntry>::empty());
    }
    None
}

} // verus!
