//! The passthrough dispatcher: per-role configuration, assembly of the
//! argument list handed to the underlying multi-target toolchain binary,
//! and the relay of a finished child's output and exit code.

use vstd::prelude::*;
use vstd::string::*;

use crate::text::str_eq;

verus! {

/// The compiler-toolchain role a dispatcher binary was built as.
#[derive(Debug, Clone, Copy, PartialEq, Eq, Structural)]
pub enum ToolRole {
    CCompiler,
    CppCompiler,
    Archiver,
    ObjectCopy,
    ResourceCompiler,
}

/// The fixed subcommand of the underlying multi-target toolchain binary
/// that a role forwards to.
pub open spec fn role_subcommand(r: ToolRole) -> Seq<char> {
    match r {
        ToolRole::CCompiler => "cc"@,
        ToolRole::CppCompiler => "c++"@,
        ToolRole::Archiver => "ar"@,
        ToolRole::ObjectCopy => "objcopy"@,
        ToolRole::ResourceCompiler => "rc"@,
    }
}

/// Whether a role's invocation needs the `-target` flag appended: true for
/// the compiler and resource-compiler roles, whose codegen is
/// target-specific; false for the archiver and object-copy roles, which
/// operate on already target-specific object files.
pub open spec fn role_needs_target_flag(r: ToolRole) -> bool {
    match r {
        ToolRole::CCompiler => true,
        ToolRole::CppCompiler => true,
        ToolRole::Archiver => false,
        ToolRole::ObjectCopy => false,
        ToolRole::ResourceCompiler => true,
    }
}

/// The role a dispatcher binary identity names, if any: per-role behavior
/// is selected by which binary is running, not by inheritance.
pub open spec fn role_of_program_name(name: Seq<char>) -> Option<ToolRole> {
    if name == "zig-cc"@ {
        Some(ToolRole::CCompiler)
    } else if name == "zig-c++"@ {
        Some(ToolRole::CppCompiler)
    } else if name == "zig-ar"@ {
        Some(ToolRole::Archiver)
    } else if name == "zig-objcopy"@ {
        Some(ToolRole::ObjectCopy)
    } else if name == "zig-rc"@ {
        Some(ToolRole::ResourceCompiler)
    } else {
        None
    }
}

impl ToolRole {
    /// The role a binary of the given program name acts as, if any.
    pub fn from_program_name(name: &str) -> (r: Option<ToolRole>)
        ensures
            r == role_of_program_name(name@),
    {
        if str_eq(name, "zig-cc") {
            Some(ToolRole::CCompiler)
        } else if str_eq(name, "zig-c++") {
            Some(ToolRole::CppCompiler)
        } else if str_eq(name, "zig-ar") {
            Some(ToolRole::Archiver)
        } else if str_eq(name, "zig-objcopy") {
            Some(ToolRole::ObjectCopy)
        } else if str_eq(name, "zig-rc") {
            Some(ToolRole::ResourceCompiler)
        } else {
            None
        }
    }

    /// The subcommand this role forwards to.
    pub fn subcommand(&self) -> (r: &'static str)
        ensures
            r@ == role_subcommand(*self),
    {
        match self {
            ToolRole::CCompiler => "cc",
            ToolRole::CppCompiler => "c++",
            ToolRole::Archiver => "ar",
            ToolRole::ObjectCopy => "objcopy",
            ToolRole::ResourceCompiler => "rc",
        }
    }

    /// Whether this role's invocation needs the `-target` flag appended.
    pub fn needs_target_flag(&self) -> (b: bool)
        ensures
            b == role_needs_target_flag(*self),
    {
        match self {
            ToolRole::CCompiler => true,
            ToolRole::CppCompiler => true,
            ToolRole::Archiver => false,
            ToolRole::ObjectCopy => false,
            ToolRole::ResourceCompiler => true,
        }
    }
}

/// One dispatcher invocation: the role this binary was built as, the
/// arguments the caller supplied (the program name excluded), and the
/// target triple string baked in when the dispatcher itself was built —
/// never read from the calling environment at run time.
pub struct DispatchRequest {
    pub role: ToolRole,
    pub supplied_arguments: Vec<String>,
    pub embedded_triple: String,
}

/// The argument list handed to the underlying toolchain binary: the role's
/// subcommand first, then the supplied arguments unchanged and in order,
/// then — only when the role needs it — the `-target <triple>` pair.
pub open spec fn assembled_arguments(
    role: ToolRole,
    supplied: Seq<Seq<char>>,
    triple: Seq<char>,
) -> Seq<Seq<char>> {
    let base = seq![role_subcommand(role)] + supplied;
    if role_needs_target_flag(role) {
        base + seq!["-target"@, triple]
    } else {
        base
    }
}

impl DispatchRequest {
    /// Assemble the exact argument list for the underlying binary.
    pub fn assemble_arguments(&self) -> (args: Vec<String>)
        ensures
            args.deep_view() == assembled_arguments(
                self.role,
                self.supplied_arguments.deep_view(),
                self.embedded_triple@,
            ),
    {
        let mut args: Vec<String> = Vec::new();
        args.push(String::from_str(self.subcommand_of_role()));
        let n = self.supplied_arguments.len();
        let mut i: usize = 0;
        proof {
            assert(args.deep_view() =~= seq![role_subcommand(self.role)]
                + self.supplied_arguments.deep_view().take(0));
        }
        while i < n
            invariant
                i <= n,
                n == self.supplied_arguments@.len(),
                args.deep_view() == seq![role_subcommand(self.role)]
                    + self.supplied_arguments.deep_view().take(i as int),
            decreases n - i,
        {
            let ghost old_dv = args.deep_view();
            args.push(self.supplied_arguments[i].clone());
            proof {
                assert(args.deep_view() =~= old_dv.push(self.supplied_arguments@[i as int]@));
                assert(args.deep_view() =~= seq![role_subcommand(self.role)]
                    + self.supplied_arguments.deep_view().take(i + 1));
            }
            i = i + 1;
        }
        proof {
            assert(self.supplied_arguments.deep_view().take(n as int)
                =~= self.supplied_arguments.deep_view());
        }
        if self.needs_flag_of_role() {
            let ghost old_dv = args.deep_view();
            args.push(String::from_str("-target"));
            args.push(self.embedded_triple.clone());
            proof {
                assert(args.deep_view() =~= old_dv + seq!["-target"@, self.embedded_triple@]);
            }
        }
        args
    }

    /// The subcommand of this request's role.
    fn subcommand_of_role(&self) -> (r: &'static str)
        ensures
            r@ == role_subcommand(self.role),
    {
        self.role.subcommand()
    }

    /// Whether this request's role needs the `-target` flag.
    fn needs_flag_of_role(&self) -> (b: bool)
        ensures
            b == role_needs_target_flag(self.role),
    {
        self.role.needs_target_flag()
    }
}

/// Everything a finished child-process run yielded: whether it succeeded,
/// the exit code the operating system reported (absent on abnormal
/// termination), and its fully buffered output streams.
pub struct ChildOutcome {
    pub success: bool,
    pub code: Option<i32>,
    pub stdout: Vec<u8>,
    pub stderr: Vec<u8>,
}

/// The exit code this process reports for a finished child: zero on
/// success; on failure the child's own code, truncated to the u8 a process
/// exit status can carry, or 1 when no code is available.
pub open spec fn spec_exit_code(success: bool, code: Option<i32>) -> u8 {
    if success {
        0
    } else {
        match code {
            Some(c) => c as u8,
            None => 1,
        }
    }
}

/// Compute the exit code to propagate for a finished child. Any code a
/// process can actually exit with (0 through 255) is propagated unchanged.
pub fn child_exit_code(success: bool, code: Option<i32>) -> (r: u8)
    ensures
        r == spec_exit_code(success, code),
        success ==> r == 0,
        !success && code is None ==> r == 1,
        !success && (code matches Some(c) && 0 <= c <= 255) ==> r as i32 == code->0,
{
    proof {
        if let Some(c) = code {
            assert(0 <= c <= 255 ==> (c as u8) as i32 == c) by (bit_vector);
        }
    }
    if success {
        0
    } else {
        match code {
            Some(c) =>
            #[verifier::truncate]
            (c as u8),
            None => 1,
        }
    }
}

/// What the dispatcher does once the child has finished: which buffered
/// stream it relays verbatim, to which of its own streams, and the exit
/// code it then reports.
pub struct RelayPlan {
    pub output: Vec<u8>,
    pub to_stderr: bool,
    pub exit_code: u8,
}

/// On success, relay the child's stdout to stdout and exit 0; on failure,
/// relay the child's stderr to stderr and exit with the child's own code,
/// or 1 when none is available.
pub fn relay_plan(outcome: ChildOutcome) -> (plan: RelayPlan)
    ensures
        plan.exit_code == spec_exit_code(outcome.success, outcome.code),
        outcome.success ==> plan.output@ == outcome.stdout@ && !plan.to_stderr,
        !outcome.success ==> plan.output@ == outcome.stderr@ && plan.to_stderr,
        !outcome.success && (outcome.code matches Some(c) && 0 <= c <= 255) ==> plan.exit_code
            as i32 == outcome.code->0,
{
    let exit_code = child_exit_code(outcome.success, outcome.code);
    if outcome.success {
        RelayPlan { output: outcome.stdout, to_stderr: false, exit_code }
    } else {
        RelayPlan { output: outcome.stderr, to_stderr: true, exit_code }
    }
}

} // verus!
