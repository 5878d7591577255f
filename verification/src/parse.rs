//! The triple parser and validator: splitting a raw string on `'-'`,
//! parsing each field in order, defaulting the ABI of a 2-piece triple, and
//! checking the candidate against the allow-list.

use vstd::prelude::*;

use crate::error::TripleError;
use crate::registry::{allow_list, lemma_allow_list_distinct, lemma_scan_finds, lemma_scan_hit,
    lemma_scan_none, resolve, scan, AllowListEntry};
use crate::text::{lemma_split_dash_step, lemma_split_dash_whole, split_dash, split_dash_str};
use crate::triple::{abi_name, abi_of_token, arch_name, arch_of_token, default_abi,
    lemma_names_dash_free, lemma_names_parse, os_name, os_of_token, zig_render, Abi, Arch, Os,
    RustTarget, ZigTriple};

verus! {

/// What field-level parsing of the split pieces yields: a candidate triple,
/// or the first failure, carrying the offending token.
pub enum TokenParse {
    Candidate(ZigTriple),
    BadFormat,
    BadArch(Seq<char>),
    BadOs(Seq<char>),
    BadAbi(Seq<char>),
}

/// What the whole parsing pipeline yields for a raw input.
pub enum ParseOutcome {
    Accepted(ZigTriple, RustTarget),
    BadFormat,
    BadArch(Seq<char>),
    BadOs(Seq<char>),
    BadAbi(Seq<char>),
    Disallowed,
}

/// Field-level parsing: exactly 3 pieces are `arch-os-abi`; exactly 2 are
/// `arch-os` with the ABI defaulted by operating system; any other count is
/// a format error. Fields are tried in order, and the first failure wins.
pub open spec fn parse_fields(pieces: Seq<Seq<char>>) -> TokenParse {
    if pieces.len() == 3 {
        match arch_of_token(pieces[0]) {
            None => TokenParse::BadArch(pieces[0]),
            Some(a) => match os_of_token(pieces[1]) {
                None => TokenParse::BadOs(pieces[1]),
                Some(o) => match abi_of_token(pieces[2]) {
                    None => TokenParse::BadAbi(pieces[2]),
                    Some(ab) => TokenParse::Candidate(ZigTriple { arch: a, os: o, abi: ab }),
                },
            },
        }
    } else if pieces.len() == 2 {
        match arch_of_token(pieces[0]) {
            None => TokenParse::BadArch(pieces[0]),
            Some(a) => match os_of_token(pieces[1]) {
                None => TokenParse::BadOs(pieces[1]),
                Some(o) => TokenParse::Candidate(
                    ZigTriple { arch: a, os: o, abi: default_abi(o) },
                ),
            },
        }
    } else {
        TokenParse::BadFormat
    }
}

/// Validation of a field-parsed candidate against the allow-list: a hit
/// returns the pairing from the table itself, a miss is disallowed, and a
/// field-level failure passes through unchanged.
pub open spec fn resolve_fields(pieces: Seq<Seq<char>>) -> ParseOutcome {
    match parse_fields(pieces) {
        TokenParse::Candidate(c) => match scan(allow_list(), c) {
            Some(e) => ParseOutcome::Accepted(e.zig, e.rust),
            None => ParseOutcome::Disallowed,
        },
        TokenParse::BadFormat => ParseOutcome::BadFormat,
        TokenParse::BadArch(t) => ParseOutcome::BadArch(t),
        TokenParse::BadOs(t) => ParseOutcome::BadOs(t),
        TokenParse::BadAbi(t) => ParseOutcome::BadAbi(t),
    }
}

/// The whole pipeline on a raw input string.
pub open spec fn parse_triple(s: Seq<char>) -> ParseOutcome {
    resolve_fields(split_dash(s))
}

/// How an executable parse result realizes a spec-level outcome: the same
/// pairing on success, and on failure the matching error variant carrying
/// exactly the offending token.
pub open spec fn outcome_matches(
    r: Result<(ZigTriple, RustTarget), TripleError>,
    o: ParseOutcome,
) -> bool {
    match o {
        ParseOutcome::Accepted(z, t) => r matches Ok(p) && p.0 == z && p.1 == t,
        ParseOutcome::BadFormat => r matches Err(TripleError::IncorrectTripleFormat),
        ParseOutcome::BadArch(tok) => r matches Err(TripleError::UnrecognizedArchitecture(s))
            && s@ == tok,
        ParseOutcome::BadOs(tok) => r matches Err(TripleError::UnrecognizedOS(s)) && s@ == tok,
        ParseOutcome::BadAbi(tok) => r matches Err(TripleError::UnrecognizedAbi(s)) && s@ == tok,
        ParseOutcome::Disallowed => r matches Err(TripleError::DisallowedTriple),
    }
}

/// A rendered `arch-os-abi` string splits back into exactly its three
/// canonical field spellings.
pub proof fn lemma_render_splits(z: ZigTriple)
    ensures
        split_dash(zig_render(z)) == seq![arch_name(z.arch), os_name(z.os), abi_name(z.abi)],
{
    let a = arch_name(z.arch);
    let o = os_name(z.os);
    let b = abi_name(z.abi);
    let s = zig_render(z);
    lemma_names_dash_free(z);
    reveal_strlit("-");
    assert("-"@.len() == 1);
    assert("-"@[0] == '-');
    let k1 = a.len() as int;
    assert(s.take(k1) =~= a);
    assert(s[k1] == '-');
    lemma_split_dash_step(s, k1);
    let t = o + "-"@ + b;
    assert(s.skip(k1 + 1) =~= t);
    let k2 = o.len() as int;
    assert(t.take(k2) =~= o);
    assert(t[k2] == '-');
    lemma_split_dash_step(t, k2);
    assert(t.skip(k2 + 1) =~= b);
    lemma_split_dash_whole(b);
    assert(split_dash(s) =~= seq![a, o, b]);
}

/// Parsing the canonical 3-part string of any allow-listed portable triple
/// yields exactly that entry's pairing of portable and native triple.
pub proof fn lemma_allow_list_roundtrip(i: int)
    requires
        0 <= i < allow_list().len(),
    ensures
        parse_triple(zig_render(allow_list()[i].zig)) == ParseOutcome::Accepted(
            allow_list()[i].zig,
            allow_list()[i].rust,
        ),
{
    let e = allow_list()[i];
    let z = e.zig;
    lemma_render_splits(z);
    lemma_names_parse(z);
    assert(parse_fields(split_dash(zig_render(z))) == TokenParse::Candidate(z));
    lemma_allow_list_distinct();
    lemma_scan_finds(allow_list(), i);
}

/// Whatever parsing accepts is an entry of the allow-list: a native
/// triple is only ever produced through the table, and the accepted
/// portable triple is the candidate the fields parsed to.
pub proof fn lemma_accepted_from_allow_list(s: Seq<char>)
    ensures
        parse_triple(s) matches ParseOutcome::Accepted(z, t) ==> exists|i: int|
            0 <= i < allow_list().len() && #[trigger] allow_list()[i] == (AllowListEntry {
                zig: z,
                rust: t,
            }),
        parse_triple(s) matches ParseOutcome::Accepted(z, t) ==> parse_fields(split_dash(s))
            == TokenParse::Candidate(z),
{
    if let TokenParse::Candidate(c) = parse_fields(split_dash(s)) {
        lemma_scan_hit(allow_list(), c);
    }
}

/// A 2-piece `arch-os` input with recognized fields takes the ABI chosen
/// by its operating system: musl on linux, none on macos, gnu on windows.
pub proof fn lemma_two_piece_abi_default(s: Seq<char>, a: Arch, o: Os)
    requires
        split_dash(s).len() == 2,
        arch_of_token(split_dash(s)[0]) == Some(a),
        os_of_token(split_dash(s)[1]) == Some(o),
    ensures
        parse_fields(split_dash(s)) == TokenParse::Candidate(
            (ZigTriple { arch: a, os: o, abi: default_abi(o) }),
        ),
{
}

/// An input with four pieces always fails as a format error — it is never
/// reinterpreted as a valid triple.
pub proof fn lemma_four_piece_rejected(s: Seq<char>)
    requires
        split_dash(s).len() == 4,
    ensures
        parse_triple(s) == ParseOutcome::BadFormat,
{
}

/// A candidate whose fields all parsed but which is not on the allow-list
/// fails as disallowed — distinct from every field-level parse error.
pub proof fn lemma_disallowed_combination(s: Seq<char>, c: ZigTriple)
    requires
        parse_fields(split_dash(s)) == TokenParse::Candidate(c),
        forall|i: int| 0 <= i < allow_list().len() ==> (#[trigger] allow_list()[i]).zig != c,
    ensures
        parse_triple(s) == ParseOutcome::Disallowed,
{
    lemma_scan_none(allow_list(), c);
}

/// An unknown architecture token fails naming exactly that token.
pub proof fn lemma_unknown_arch_token(s: Seq<char>)
    requires
        split_dash(s).len() == 2 || split_dash(s).len() == 3,
        arch_of_token(split_dash(s)[0]) is None,
    ensures
        parse_triple(s) == ParseOutcome::BadArch(split_dash(s)[0]),
{
}

/// An unknown operating-system token fails naming exactly that token.
pub proof fn lemma_unknown_os_token(s: Seq<char>)
    requires
        split_dash(s).len() == 2 || split_dash(s).len() == 3,
        arch_of_token(split_dash(s)[0]) is Some,
        os_of_token(split_dash(s)[1]) is None,
    ensures
        parse_triple(s) == ParseOutcome::BadOs(split_dash(s)[1]),
{
}

/// An unknown ABI token fails naming exactly that token.
pub proof fn lemma_unknown_abi_token(s: Seq<char>)
    requires
        split_dash(s).len() == 3,
        arch_of_token(split_dash(s)[0]) is Some,
        os_of_token(split_dash(s)[1]) is Some,
        abi_of_token(split_dash(s)[2]) is None,
    ensures
        parse_triple(s) == ParseOutcome::BadAbi(split_dash(s)[2]),
{
}

impl ZigTriple {
    /// Parse and validate the already-split pieces of a raw triple.
    fn analyze_pieces(pieces: &Vec<String>) -> (r: Result<(ZigTriple, RustTarget), TripleError>)
        ensures
            outcome_matches(r, resolve_fields(pieces.deep_view())),
    {
        proof {
            assert(pieces.deep_view().len() == pieces@.len());
        }
        if pieces.len() == 3 {
            proof {
                assert(pieces.deep_view()[0] == pieces@[0]@);
                assert(pieces.deep_view()[1] == pieces@[1]@);
                assert(pieces.deep_view()[2] == pieces@[2]@);
            }
            let arch = match Arch::new(pieces[0].as_str()) {
                Ok(a) => a,
                Err(e) => {
                    return Err(e);
                },
            };
            let os = match Os::from_zig(pieces[1].as_str()) {
                Ok(o) => o,
                Err(e) => {
                    return Err(e);
                },
            };
            let abi = match Abi::new(pieces[2].as_str()) {
                Ok(ab) => ab,
                Err(e) => {
                    return Err(e);
                },
            };
            let candidate = ZigTriple { arch, os, abi };
            match resolve(&candidate) {
                Some((z, t)) => Ok((z, t)),
                None => Err(TripleError::DisallowedTriple),
            }
        } else if pieces.len() == 2 {
            proof {
                assert(pieces.deep_view()[0] == pieces@[0]@);
                assert(pieces.deep_view()[1] == pieces@[1]@);
            }
            let arch = match Arch::new(pieces[0].as_str()) {
                Ok(a) => a,
                Err(e) => {
                    return Err(e);
                },
            };
            let os = match Os::from_zig(pieces[1].as_str()) {
                Ok(o) => o,
                Err(e) => {
                    return Err(e);
                },
            };
            let abi = Abi::default_for_os(&os);
            let candidate = ZigTriple { arch, os, abi };
            match resolve(&candidate) {
                Some((z, t)) => Ok((z, t)),
                None => Err(TripleError::DisallowedTriple),
            }
        } else {
            Err(TripleError::IncorrectTripleFormat)
        }
    }

    /// Parse a raw `arch-os` or `arch-os-abi` string and validate it
    /// against the allow-list.
    pub fn new(triple: &str) -> (r: Result<(ZigTriple, RustTarget), TripleError>)
        ensures
            outcome_matches(r, parse_triple(triple@)),
    {
        let pieces = split_dash_str(triple);
        Self::analyze_pieces(&pieces)
    }

    /// Run the host's own triple through the same pipeline. The caller
    /// supplies the host triple, captured once when the tool was built.
    pub fn native(host_triple: &str) -> (r: Result<(ZigTriple, RustTarget), TripleError>)
        ensures
            outcome_matches(r, parse_triple(host_triple@)),
    {
        Self::new(host_triple)
    }
}

} // verus!
