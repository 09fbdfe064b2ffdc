//! Processor architectures and the register state of a thread.
use vstd::prelude::*;

use crate::sys_error;
use crate::text::{decimal_text, fields_text, push_fields, push_str, str_views};

verus! {

/// The processor architectures a trace can be recorded on.
#[derive(Clone, Copy, Debug, PartialEq, Eq, Structural)]
pub enum ProcessorArchitecture {
    X64,
    X86,
    ARM64,
}

/// The raw architecture codes of the system information.
pub open spec fn architecture_code(a: ProcessorArchitecture) -> u16 {
    match a {
        ProcessorArchitecture::X64 => 9,
        ProcessorArchitecture::X86 => 0,
        ProcessorArchitecture::ARM64 => 12,
    }
}

/// The architecture of a raw code, if it names one.
pub open spec fn architecture_of_code(value: u16) -> Option<ProcessorArchitecture> {
    if value == 12 {
        Some(ProcessorArchitecture::ARM64)
    } else if value == 9 {
        Some(ProcessorArchitecture::X64)
    } else if value == 0 {
        Some(ProcessorArchitecture::X86)
    } else {
        None
    }
}

/// The size of a pointer on an architecture, in bytes.
pub open spec fn pointer_width(a: ProcessorArchitecture) -> usize {
    match a {
        ProcessorArchitecture::X64 => 8,
        ProcessorArchitecture::X86 => 4,
        ProcessorArchitecture::ARM64 => 8,
    }
}

impl ProcessorArchitecture {
    /// Recognises a raw architecture code; any other code is a conversion error.
    pub fn try_from(value: u16) -> (r: Result<Self, sys_error::Error>)
        ensures
            r matches Ok(a) ==> architecture_of_code(value) == Some(a),
            r is Err <==> architecture_of_code(value) is None,
            r matches Err(e) ==> e == sys_error::Error::ConversionError,
    {
        if value == 12 {
            Ok(ProcessorArchitecture::ARM64)
        } else if value == 9 {
            Ok(ProcessorArchitecture::X64)
        } else if value == 0 {
            Ok(ProcessorArchitecture::X86)
        } else {
            Err(sys_error::Error::ConversionError)
        }
    }

    /// The raw code of the architecture.
    pub fn code(self) -> (r: u16)
        ensures
            r == architecture_code(self),
    {
        match self {
            ProcessorArchitecture::X64 => 9,
            ProcessorArchitecture::X86 => 0,
            ProcessorArchitecture::ARM64 => 12,
        }
    }

    /// The size of a pointer on this architecture, in bytes.
    pub fn pointer_size(self) -> (r: usize)
        ensures
            r == pointer_width(self),
    {
        match self {
            ProcessorArchitecture::X64 => 8,
            ProcessorArchitecture::X86 => 4,
            ProcessorArchitecture::ARM64 => 8,
        }
    }
}

/// Recognising the code of an architecture gives the architecture back.
pub proof fn lemma_architecture_code_round_trip(a: ProcessorArchitecture)
    ensures
        architecture_of_code(architecture_code(a)) == Some(a),
{
}

/// The general-purpose registers of an x64 thread.
#[derive(Clone, Copy, Debug, PartialEq, Eq, Structural, Default)]
pub struct X64Context {
    pub rax: u64,
    pub rbx: u64,
    pub rcx: u64,
    pub rdx: u64,
    pub rsi: u64,
    pub rdi: u64,
    pub rip: u64,
    pub rsp: u64,
    pub rbp: u64,
    pub r8: u64,
    pub r9: u64,
    pub r10: u64,
    pub r11: u64,
    pub r12: u64,
    pub r13: u64,
    pub r14: u64,
    pub r15: u64,
}

/// The general-purpose registers of an x86 thread.
#[derive(Clone, Copy, Debug, PartialEq, Eq, Structural, Default)]
pub struct X86Context {
    pub eax: u32,
    pub ebx: u32,
    pub ecx: u32,
    pub edx: u32,
    pub esi: u32,
    pub edi: u32,
    pub eip: u32,
    pub esp: u32,
    pub ebp: u32,
}

/// The general-purpose registers of an ARM64 thread.
#[derive(Clone, Copy, Debug)]
pub struct Arm64Context {
    /// `x0` to `x28`.
    pub x: [u64; 29],
    pub fp: u64,
    pub lr: u64,
    pub sp: u64,
    pub pc: u64,
}

/// The register state of a thread, by architecture.
#[derive(Clone, Copy, Debug)]
pub enum RegisterContext {
    ARM64(Arm64Context),
    X64(X64Context),
    X86(X86Context),
}

/// A 128-bit NEON register.
#[derive(Clone, Copy, Debug, PartialEq, Eq, Structural, Default)]
pub struct Neon128 {
    pub low: u64,
    pub high: i64,
}

/// The extended (vector) register state of an x86 or x64 thread, as the raw
/// bytes the SDK hands out.
#[derive(Clone, Debug)]
pub struct AvxExtendedContext {
    pub bytes: Vec<u8>,
}

/// The extended register state of a thread, by architecture.
#[derive(Clone, Debug)]
pub enum ExtendedRegisterContext {
    ARM64(Neon128),
    X64(AvxExtendedContext),
    X86(AvxExtendedContext),
}

/// The register labels of the x64 rendering, with the separators before them.
pub open spec fn x64_labels() -> Seq<Seq<char>> {
    seq![
        "rax="@, " rbx="@, " rcx="@,
        "\nrdx="@, " rsi="@, " rdi="@,
        "\nrip="@, " rsp="@, " rbp="@,
        "\n r8="@, "  r9="@, " r10="@,
        "\nr11="@, " r12="@, " r13="@,
        "\nr14="@, " r15="@,
    ]
}

/// The x64 register values, in the order of `x64_labels`.
pub open spec fn x64_values(c: X64Context) -> Seq<u64> {
    seq![
        c.rax, c.rbx, c.rcx, c.rdx, c.rsi, c.rdi, c.rip, c.rsp, c.rbp,
        c.r8, c.r9, c.r10, c.r11, c.r12, c.r13, c.r14, c.r15,
    ]
}

/// The register labels of the x86 rendering, with the separators before them.
pub open spec fn x86_labels() -> Seq<Seq<char>> {
    seq![
        "eax="@, " ebx="@, " ecx="@, " edx="@, " esi="@, " edi="@,
        "\neip="@, " esp="@, " ebp="@,
    ]
}

/// The x86 register values, in the order of `x86_labels`.
pub open spec fn x86_values(c: X86Context) -> Seq<u64> {
    seq![
        c.eax as u64, c.ebx as u64, c.ecx as u64, c.edx as u64, c.esi as u64, c.edi as u64,
        c.eip as u64, c.esp as u64, c.ebp as u64,
    ]
}

/// The register labels of the ARM64 rendering, with the separators before them.
pub open spec fn arm64_labels() -> Seq<Seq<char>> {
    seq![
        "x0="@, "   x1="@, "   x2="@, "   x3="@,
        "\nx4="@, "   x5="@, "   x6="@, "   x7="@,
        "\nx8="@, "   x9="@, "  x10="@, "  x11="@,
        "\nx12="@, "  x13="@, "  x14="@, "  x15="@,
        "\nx16="@, "  x17="@, "  x18="@, "  x19="@,
        "\nx20="@, "  x21="@, "  x22="@, "  x23="@,
        "\nx24="@, "  x25="@, "  x26="@, "  x27="@,
        "\nx28="@, "   fp="@, "   lr="@, "   sp="@,
        "\n pc="@,
    ]
}

/// The ARM64 register values, in the order of `arm64_labels`.
pub open spec fn arm64_values(c: Arm64Context) -> Seq<u64> {
    c.x@ + seq![c.fp, c.lr, c.sp, c.pc]
}

/// The textual form of a register context: each register as its label and
/// its value in zero-padded lower-case hexadecimal (16 digits for 64-bit
/// registers, 8 for x86), three or four registers per line; the x86 form
/// ends with a space.
pub open spec fn context_text(ctx: RegisterContext) -> Seq<char> {
    match ctx {
        RegisterContext::X64(c) => fields_text(x64_labels(), x64_values(c), 16),
        RegisterContext::X86(c) => fields_text(x86_labels(), x86_values(c), 8) + " "@,
        RegisterContext::ARM64(c) => fields_text(arm64_labels(), arm64_values(c), 16),
    }
}

/// The program counter of a register context.
pub open spec fn context_pc(ctx: RegisterContext) -> u64 {
    match ctx {
        RegisterContext::X64(c) => c.rip,
        RegisterContext::X86(c) => c.eip as u64,
        RegisterContext::ARM64(c) => c.pc,
    }
}

/// The stack pointer of a register context.
pub open spec fn context_sp(ctx: RegisterContext) -> u64 {
    match ctx {
        RegisterContext::X64(c) => c.rsp,
        RegisterContext::X86(c) => c.esp as u64,
        RegisterContext::ARM64(c) => c.sp,
    }
}

/// The frame pointer of a register context.
pub open spec fn context_fp(ctx: RegisterContext) -> u64 {
    match ctx {
        RegisterContext::X64(c) => c.rbp,
        RegisterContext::X86(c) => c.ebp as u64,
        RegisterContext::ARM64(c) => c.fp,
    }
}

/// The architecture a register context belongs to.
pub open spec fn context_architecture(ctx: RegisterContext) -> ProcessorArchitecture {
    match ctx {
        RegisterContext::X64(_) => ProcessorArchitecture::X64,
        RegisterContext::X86(_) => ProcessorArchitecture::X86,
        RegisterContext::ARM64(_) => ProcessorArchitecture::ARM64,
    }
}

impl RegisterContext {
    /// The architecture of this context.
    pub fn architecture(&self) -> (r: ProcessorArchitecture)
        ensures
            r == context_architecture(*self),
    {
        match self {
            RegisterContext::X64(_) => ProcessorArchitecture::X64,
            RegisterContext::X86(_) => ProcessorArchitecture::X86,
            RegisterContext::ARM64(_) => ProcessorArchitecture::ARM64,
        }
    }

    /// The program counter: `rip`, `eip` or `pc`.
    pub fn pc(&self) -> (r: u64)
        ensures
            r == context_pc(*self),
    {
        match self {
            RegisterContext::X64(c) => c.rip,
            RegisterContext::X86(c) => c.eip as u64,
            RegisterContext::ARM64(c) => c.pc,
        }
    }

    /// The stack pointer: `rsp`, `esp` or `sp`.
    pub fn sp(&self) -> (r: u64)
        ensures
            r == context_sp(*self),
    {
        match self {
            RegisterContext::X64(c) => c.rsp,
            RegisterContext::X86(c) => c.esp as u64,
            RegisterContext::ARM64(c) => c.sp,
        }
    }

    /// The frame pointer: `rbp`, `ebp` or `fp`.
    pub fn fp(&self) -> (r: u64)
        ensures
            r == context_fp(*self),
    {
        match self {
            RegisterContext::X64(c) => c.rbp,
            RegisterContext::X86(c) => c.ebp as u64,
            RegisterContext::ARM64(c) => c.fp,
        }
    }

    /// Renders the registers, three or four per line.
    pub fn to_string(&self) -> (r: String)
        ensures
            r@ == context_text(*self),
    {
        let mut s = String::new();
        match self {
            RegisterContext::X64(c) => {
                let labels: [&str; 17] = [
                    "rax=", " rbx=", " rcx=",
                    "\nrdx=", " rsi=", " rdi=",
                    "\nrip=", " rsp=", " rbp=",
                    "\n r8=", "  r9=", " r10=",
                    "\nr11=", " r12=", " r13=",
                    "\nr14=", " r15=",
                ];
                let values: [u64; 17] = [
                    c.rax, c.rbx, c.rcx, c.rdx, c.rsi, c.rdi, c.rip, c.rsp, c.rbp,
                    c.r8, c.r9, c.r10, c.r11, c.r12, c.r13, c.r14, c.r15,
                ];
                assert(str_views(labels@) =~= x64_labels());
                assert(values@ =~= x64_values(*c));
                push_fields(&mut s, &labels, &values, 16);
                assert(s@ =~= context_text(*self));
            },
            RegisterContext::X86(c) => {
                let labels: [&str; 9] = [
                    "eax=", " ebx=", " ecx=", " edx=", " esi=", " edi=",
                    "\neip=", " esp=", " ebp=",
                ];
                let values: [u64; 9] = [
                    c.eax as u64, c.ebx as u64, c.ecx as u64, c.edx as u64, c.esi as u64,
                    c.edi as u64, c.eip as u64, c.esp as u64, c.ebp as u64,
                ];
                assert(str_views(labels@) =~= x86_labels());
                assert(values@ =~= x86_values(*c));
                push_fields(&mut s, &labels, &values, 8);
                push_str(&mut s, " ");
                assert(s@ =~= context_text(*self));
            },
            RegisterContext::ARM64(c) => {
                let labels: [&str; 33] = [
                    "x0=", "   x1=", "   x2=", "   x3=",
                    "\nx4=", "   x5=", "   x6=", "   x7=",
                    "\nx8=", "   x9=", "  x10=", "  x11=",
                    "\nx12=", "  x13=", "  x14=", "  x15=",
                    "\nx16=", "  x17=", "  x18=", "  x19=",
                    "\nx20=", "  x21=", "  x22=", "  x23=",
                    "\nx24=", "  x25=", "  x26=", "  x27=",
                    "\nx28=", "   fp=", "   lr=", "   sp=",
                    "\n pc=",
                ];
                let values: [u64; 33] = [
                    c.x[0], c.x[1], c.x[2], c.x[3], c.x[4], c.x[5], c.x[6], c.x[7],
                    c.x[8], c.x[9], c.x[10], c.x[11], c.x[12], c.x[13], c.x[14], c.x[15],
                    c.x[16], c.x[17], c.x[18], c.x[19], c.x[20], c.x[21], c.x[22], c.x[23],
                    c.x[24], c.x[25], c.x[26], c.x[27], c.x[28], c.fp, c.lr, c.sp, c.pc,
                ];
                assert(str_views(labels@) =~= arm64_labels());
                assert(values@ =~= arm64_values(*c));
                push_fields(&mut s, &labels, &values, 16);
                assert(s@ =~= context_text(*self));
            },
        }
        s
    }
}

/// `label` names the register `name`: it ends with the name and `=`.
pub open spec fn label_names(label: Seq<char>, name: Seq<char>) -> bool {
    name.len() + 1 <= label.len() && label.skip(label.len() - name.len() - 1) == name.push('=')
}

/// In the ARM64 text form, each label names a register and is followed by
/// that register's value: `x0=` to `x28=` by `x[0]` to `x[28]`, then `fp=`,
/// `lr=`, `sp=` and `pc=` by those registers.
pub proof fn lemma_arm64_text_pairs_labels_with_registers(c: Arm64Context)
    ensures
        context_text(RegisterContext::ARM64(c)) == fields_text(arm64_labels(), arm64_values(c), 16),
        arm64_labels().len() == 33,
        arm64_values(c).len() == 33,
        forall|i: int| 0 <= i < 29 ==> #[trigger] arm64_values(c)[i] == c.x[i] && label_names(arm64_labels()[i], "x"@ + decimal_text(i as nat)),
        arm64_values(c)[29] == c.fp && label_names(arm64_labels()[29], "fp"@),
        arm64_values(c)[30] == c.lr && label_names(arm64_labels()[30], "lr"@),
        arm64_values(c)[31] == c.sp && label_names(arm64_labels()[31], "sp"@),
        arm64_values(c)[32] == c.pc && label_names(arm64_labels()[32], "pc"@),
{
    assert(label_names(arm64_labels()[0], "x"@ + decimal_text(0))) by {
        reveal_strlit("x0=");
        reveal_strlit("x");
        reveal_with_fuel(decimal_text, 2);
        assert(arm64_labels()[0].skip(arm64_labels()[0].len() - ("x"@ + decimal_text(0)).len() - 1) =~= ("x"@ + decimal_text(0)).push('='));
    }
    assert(label_names(arm64_labels()[1], "x"@ + decimal_text(1))) by {
        reveal_strlit("   x1=");
        reveal_strlit("x");
        reveal_with_fuel(decimal_text, 2);
        assert(arm64_labels()[1].skip(arm64_labels()[1].len() - ("x"@ + decimal_text(1)).len() - 1) =~= ("x"@ + decimal_text(1)).push('='));
    }
    assert(label_names(arm64_labels()[2], "x"@ + decimal_text(2))) by {
        reveal_strlit("   x2=");
        reveal_strlit("x");
        reveal_with_fuel(decimal_text, 2);
        assert(arm64_labels()[2].skip(arm64_labels()[2].len() - ("x"@ + decimal_text(2)).len() - 1) =~= ("x"@ + decimal_text(2)).push('='));
    }
    assert(label_names(arm64_labels()[3], "x"@ + decimal_text(3))) by {
        reveal_strlit("   x3=");
        reveal_strlit("x");
        reveal_with_fuel(decimal_text, 2);
        assert(arm64_labels()[3].skip(arm64_labels()[3].len() - ("x"@ + decimal_text(3)).len() - 1) =~= ("x"@ + decimal_text(3)).push('='));
    }
    assert(label_names(arm64_labels()[4], "x"@ + decimal_text(4))) by {
        reveal_strlit("\nx4=");
        reveal_strlit("x");
        reveal_with_fuel(decimal_text, 2);
        assert(arm64_labels()[4].skip(arm64_labels()[4].len() - ("x"@ + decimal_text(4)).len() - 1) =~= ("x"@ + decimal_text(4)).push('='));
    }
    assert(label_names(arm64_labels()[5], "x"@ + decimal_text(5))) by {
        reveal_strlit("   x5=");
        reveal_strlit("x");
        reveal_with_fuel(decimal_text, 2);
        assert(arm64_labels()[5].skip(arm64_labels()[5].len() - ("x"@ + decimal_text(5)).len() - 1) =~= ("x"@ + decimal_text(5)).push('='));
    }
    assert(label_names(arm64_labels()[6], "x"@ + decimal_text(6))) by {
        reveal_strlit("   x6=");
        reveal_strlit("x");
        reveal_with_fuel(decimal_text, 2);
        assert(arm64_labels()[6].skip(arm64_labels()[6].len() - ("x"@ + decimal_text(6)).len() - 1) =~= ("x"@ + decimal_text(6)).push('='));
    }
    assert(label_names(arm64_labels()[7], "x"@ + decimal_text(7))) by {
        reveal_strlit("   x7=");
        reveal_strlit("x");
        reveal_with_fuel(decimal_text, 2);
        assert(arm64_labels()[7].skip(arm64_labels()[7].len() - ("x"@ + decimal_text(7)).len() - 1) =~= ("x"@ + decimal_text(7)).push('='));
    }
    assert(label_names(arm64_labels()[8], "x"@ + decimal_text(8))) by {
        reveal_strlit("\nx8=");
        reveal_strlit("x");
        reveal_with_fuel(decimal_text, 2);
        assert(arm64_labels()[8].skip(arm64_labels()[8].len() - ("x"@ + decimal_text(8)).len() - 1) =~= ("x"@ + decimal_text(8)).push('='));
    }
    assert(label_names(arm64_labels()[9], "x"@ + decimal_text(9))) by {
        reveal_strlit("   x9=");
        reveal_strlit("x");
        reveal_with_fuel(decimal_text, 2);
        assert(arm64_labels()[9].skip(arm64_labels()[9].len() - ("x"@ + decimal_text(9)).len() - 1) =~= ("x"@ + decimal_text(9)).push('='));
    }
    assert(label_names(arm64_labels()[10], "x"@ + decimal_text(10))) by {
        reveal_strlit("  x10=");
        reveal_strlit("x");
        reveal_with_fuel(decimal_text, 2);
        assert(arm64_labels()[10].skip(arm64_labels()[10].len() - ("x"@ + decimal_text(10)).len() - 1) =~= ("x"@ + decimal_text(10)).push('='));
    }
    assert(label_names(arm64_labels()[11], "x"@ + decimal_text(11))) by {
        reveal_strlit("  x11=");
        reveal_strlit("x");
        reveal_with_fuel(decimal_text, 2);
        assert(arm64_labels()[11].skip(arm64_labels()[11].len() - ("x"@ + decimal_text(11)).len() - 1) =~= ("x"@ + decimal_text(11)).push('='));
    }
    assert(label_names(arm64_labels()[12], "x"@ + decimal_text(12))) by {
        reveal_strlit("\nx12=");
        reveal_strlit("x");
        reveal_with_fuel(decimal_text, 2);
        assert(arm64_labels()[12].skip(arm64_labels()[12].len() - ("x"@ + decimal_text(12)).len() - 1) =~= ("x"@ + decimal_text(12)).push('='));
    }
    assert(label_names(arm64_labels()[13], "x"@ + decimal_text(13))) by {
        reveal_strlit("  x13=");
        reveal_strlit("x");
        reveal_with_fuel(decimal_text, 2);
        assert(arm64_labels()[13].skip(arm64_labels()[13].len() - ("x"@ + decimal_text(13)).len() - 1) =~= ("x"@ + decimal_text(13)).push('='));
    }
    assert(label_names(arm64_labels()[14], "x"@ + decimal_text(14))) by {
        reveal_strlit("  x14=");
        reveal_strlit("x");
        reveal_with_fuel(decimal_text, 2);
        assert(arm64_labels()[14].skip(arm64_labels()[14].len() - ("x"@ + decimal_text(14)).len() - 1) =~= ("x"@ + decimal_text(14)).push('='));
    }
    assert(label_names(arm64_labels()[15], "x"@ + decimal_text(15))) by {
        reveal_strlit("  x15=");
        reveal_strlit("x");
        reveal_with_fuel(decimal_text, 2);
        assert(arm64_labels()[15].skip(arm64_labels()[15].len() - ("x"@ + decimal_text(15)).len() - 1) =~= ("x"@ + decimal_text(15)).push('='));
    }
    assert(label_names(arm64_labels()[16], "x"@ + decimal_text(16))) by {
        reveal_strlit("\nx16=");
        reveal_strlit("x");
        reveal_with_fuel(decimal_text, 2);
        assert(arm64_labels()[16].skip(arm64_labels()[16].len() - ("x"@ + decimal_text(16)).len() - 1) =~= ("x"@ + decimal_text(16)).push('='));
    }
    assert(label_names(arm64_labels()[17], "x"@ + decimal_text(17))) by {
        reveal_strlit("  x17=");
        reveal_strlit("x");
        reveal_with_fuel(decimal_text, 2);
        assert(arm64_labels()[17].skip(arm64_labels()[17].len() - ("x"@ + decimal_text(17)).len() - 1) =~= ("x"@ + decimal_text(17)).push('='));
    }
    assert(label_names(arm64_labels()[18], "x"@ + decimal_text(18))) by {
        reveal_strlit("  x18=");
        reveal_strlit("x");
        reveal_with_fuel(decimal_text, 2);
        assert(arm64_labels()[18].skip(arm64_labels()[18].len() - ("x"@ + decimal_text(18)).len() - 1) =~= ("x"@ + decimal_text(18)).push('='));
    }
    assert(label_names(arm64_labels()[19], "x"@ + decimal_text(19))) by {
        reveal_strlit("  x19=");
        reveal_strlit("x");
        reveal_with_fuel(decimal_text, 2);
        assert(arm64_labels()[19].skip(arm64_labels()[19].len() - ("x"@ + decimal_text(19)).len() - 1) =~= ("x"@ + decimal_text(19)).push('='));
    }
    assert(label_names(arm64_labels()[20], "x"@ + decimal_text(20))) by {
        reveal_strlit("\nx20=");
        reveal_strlit("x");
        reveal_with_fuel(decimal_text, 2);
        assert(arm64_labels()[20].skip(arm64_labels()[20].len() - ("x"@ + decimal_text(20)).len() - 1) =~= ("x"@ + decimal_text(20)).push('='));
    }
    assert(label_names(arm64_labels()[21], "x"@ + decimal_text(21))) by {
        reveal_strlit("  x21=");
        reveal_strlit("x");
        reveal_with_fuel(decimal_text, 2);
        assert(arm64_labels()[21].skip(arm64_labels()[21].len() - ("x"@ + decimal_text(21)).len() - 1) =~= ("x"@ + decimal_text(21)).push('='));
    }
    assert(label_names(arm64_labels()[22], "x"@ + decimal_text(22))) by {
        reveal_strlit("  x22=");
        reveal_strlit("x");
        reveal_with_fuel(decimal_text, 2);
        assert(arm64_labels()[22].skip(arm64_labels()[22].len() - ("x"@ + decimal_text(22)).len() - 1) =~= ("x"@ + decimal_text(22)).push('='));
    }
    assert(label_names(arm64_labels()[23], "x"@ + decimal_text(23))) by {
        reveal_strlit("  x23=");
        reveal_strlit("x");
        reveal_with_fuel(decimal_text, 2);
        assert(arm64_labels()[23].skip(arm64_labels()[23].len() - ("x"@ + decimal_text(23)).len() - 1) =~= ("x"@ + decimal_text(23)).push('='));
    }
    assert(label_names(arm64_labels()[24], "x"@ + decimal_text(24))) by {
        reveal_strlit("\nx24=");
        reveal_strlit("x");
        reveal_with_fuel(decimal_text, 2);
        assert(arm64_labels()[24].skip(arm64_labels()[24].len() - ("x"@ + decimal_text(24)).len() - 1) =~= ("x"@ + decimal_text(24)).push('='));
    }
    assert(label_names(arm64_labels()[25], "x"@ + decimal_text(25))) by {
        reveal_strlit("  x25=");
        reveal_strlit("x");
        reveal_with_fuel(decimal_text, 2);
        assert(arm64_labels()[25].skip(arm64_labels()[25].len() - ("x"@ + decimal_text(25)).len() - 1) =~= ("x"@ + decimal_text(25)).push('='));
    }
    assert(label_names(arm64_labels()[26], "x"@ + decimal_text(26))) by {
        reveal_strlit("  x26=");
        reveal_strlit("x");
        reveal_with_fuel(decimal_text, 2);
        assert(arm64_labels()[26].skip(arm64_labels()[26].len() - ("x"@ + decimal_text(26)).len() - 1) =~= ("x"@ + decimal_text(26)).push('='));
    }
    assert(label_names(arm64_labels()[27], "x"@ + decimal_text(27))) by {
        reveal_strlit("  x27=");
        reveal_strlit("x");
        reveal_with_fuel(decimal_text, 2);
        assert(arm64_labels()[27].skip(arm64_labels()[27].len() - ("x"@ + decimal_text(27)).len() - 1) =~= ("x"@ + decimal_text(27)).push('='));
    }
    assert(label_names(arm64_labels()[28], "x"@ + decimal_text(28))) by {
        reveal_strlit("\nx28=");
        reveal_strlit("x");
        reveal_with_fuel(decimal_text, 2);
        assert(arm64_labels()[28].skip(arm64_labels()[28].len() - ("x"@ + decimal_text(28)).len() - 1) =~= ("x"@ + decimal_text(28)).push('='));
    }
    assert(label_names(arm64_labels()[29], "fp"@)) by {
        reveal_strlit("   fp=");
        reveal_strlit("fp");
        assert(arm64_labels()[29].skip(arm64_labels()[29].len() - "fp"@.len() - 1) =~= "fp"@.push('='));
    }
    assert(label_names(arm64_labels()[30], "lr"@)) by {
        reveal_strlit("   lr=");
        reveal_strlit("lr");
        assert(arm64_labels()[30].skip(arm64_labels()[30].len() - "lr"@.len() - 1) =~= "lr"@.push('='));
    }
    assert(label_names(arm64_labels()[31], "sp"@)) by {
        reveal_strlit("   sp=");
        reveal_strlit("sp");
        assert(arm64_labels()[31].skip(arm64_labels()[31].len() - "sp"@.len() - 1) =~= "sp"@.push('='));
    }
    assert(label_names(arm64_labels()[32], "pc"@)) by {
        reveal_strlit("\n pc=");
        reveal_strlit("pc");
        assert(arm64_labels()[32].skip(arm64_labels()[32].len() - "pc"@.len() - 1) =~= "pc"@.push('='));
    }
    assert forall|i: int| 0 <= i < 29 implies #[trigger] arm64_values(c)[i] == c.x[i] && label_names(arm64_labels()[i], "x"@ + decimal_text(i as nat)) by {
        assert(arm64_values(c)[i] == c.x@[i]);
    }
}

/// In the X64 text form, each label names a register and is followed by
/// that register's value.
pub proof fn lemma_x64_text_pairs_labels_with_registers(c: X64Context)
    ensures
        x64_labels().len() == 17,
        x64_values(c).len() == 17,
        x64_values(c)[0] == c.rax && label_names(x64_labels()[0], "rax"@),
        x64_values(c)[1] == c.rbx && label_names(x64_labels()[1], "rbx"@),
        x64_values(c)[2] == c.rcx && label_names(x64_labels()[2], "rcx"@),
        x64_values(c)[3] == c.rdx && label_names(x64_labels()[3], "rdx"@),
        x64_values(c)[4] == c.rsi && label_names(x64_labels()[4], "rsi"@),
        x64_values(c)[5] == c.rdi && label_names(x64_labels()[5], "rdi"@),
        x64_values(c)[6] == c.rip && label_names(x64_labels()[6], "rip"@),
        x64_values(c)[7] == c.rsp && label_names(x64_labels()[7], "rsp"@),
        x64_values(c)[8] == c.rbp && label_names(x64_labels()[8], "rbp"@),
        x64_values(c)[9] == c.r8 && label_names(x64_labels()[9], "r8"@),
        x64_values(c)[10] == c.r9 && label_names(x64_labels()[10], "r9"@),
        x64_values(c)[11] == c.r10 && label_names(x64_labels()[11], "r10"@),
        x64_values(c)[12] == c.r11 && label_names(x64_labels()[12], "r11"@),
        x64_values(c)[13] == c.r12 && label_names(x64_labels()[13], "r12"@),
        x64_values(c)[14] == c.r13 && label_names(x64_labels()[14], "r13"@),
        x64_values(c)[15] == c.r14 && label_names(x64_labels()[15], "r14"@),
        x64_values(c)[16] == c.r15 && label_names(x64_labels()[16], "r15"@),
{
    assert(label_names(x64_labels()[0], "rax"@)) by {
        reveal_strlit("rax=");
        reveal_strlit("rax");
        assert(x64_labels()[0].skip(x64_labels()[0].len() - "rax"@.len() - 1) =~= "rax"@.push('='));
    }
    assert(label_names(x64_labels()[1], "rbx"@)) by {
        reveal_strlit(" rbx=");
        reveal_strlit("rbx");
        assert(x64_labels()[1].skip(x64_labels()[1].len() - "rbx"@.len() - 1) =~= "rbx"@.push('='));
    }
    assert(label_names(x64_labels()[2], "rcx"@)) by {
        reveal_strlit(" rcx=");
        reveal_strlit("rcx");
        assert(x64_labels()[2].skip(x64_labels()[2].len() - "rcx"@.len() - 1) =~= "rcx"@.push('='));
    }
    assert(label_names(x64_labels()[3], "rdx"@)) by {
        reveal_strlit("\nrdx=");
        reveal_strlit("rdx");
        assert(x64_labels()[3].skip(x64_labels()[3].len() - "rdx"@.len() - 1) =~= "rdx"@.push('='));
    }
    assert(label_names(x64_labels()[4], "rsi"@)) by {
        reveal_strlit(" rsi=");
        reveal_strlit("rsi");
        assert(x64_labels()[4].skip(x64_labels()[4].len() - "rsi"@.len() - 1) =~= "rsi"@.push('='));
    }
    assert(label_names(x64_labels()[5], "rdi"@)) by {
        reveal_strlit(" rdi=");
        reveal_strlit("rdi");
        assert(x64_labels()[5].skip(x64_labels()[5].len() - "rdi"@.len() - 1) =~= "rdi"@.push('='));
    }
    assert(label_names(x64_labels()[6], "rip"@)) by {
        reveal_strlit("\nrip=");
        reveal_strlit("rip");
        assert(x64_labels()[6].skip(x64_labels()[6].len() - "rip"@.len() - 1) =~= "rip"@.push('='));
    }
    assert(label_names(x64_labels()[7], "rsp"@)) by {
        reveal_strlit(" rsp=");
        reveal_strlit("rsp");
        assert(x64_labels()[7].skip(x64_labels()[7].len() - "rsp"@.len() - 1) =~= "rsp"@.push('='));
    }
    assert(label_names(x64_labels()[8], "rbp"@)) by {
        reveal_strlit(" rbp=");
        reveal_strlit("rbp");
        assert(x64_labels()[8].skip(x64_labels()[8].len() - "rbp"@.len() - 1) =~= "rbp"@.push('='));
    }
    assert(label_names(x64_labels()[9], "r8"@)) by {
        reveal_strlit("\n r8=");
        reveal_strlit("r8");
        assert(x64_labels()[9].skip(x64_labels()[9].len() - "r8"@.len() - 1) =~= "r8"@.push('='));
    }
    assert(label_names(x64_labels()[10], "r9"@)) by {
        reveal_strlit("  r9=");
        reveal_strlit("r9");
        assert(x64_labels()[10].skip(x64_labels()[10].len() - "r9"@.len() - 1) =~= "r9"@.push('='));
    }
    assert(label_names(x64_labels()[11], "r10"@)) by {
        reveal_strlit(" r10=");
        reveal_strlit("r10");
        assert(x64_labels()[11].skip(x64_labels()[11].len() - "r10"@.len() - 1) =~= "r10"@.push('='));
    }
    assert(label_names(x64_labels()[12], "r11"@)) by {
        reveal_strlit("\nr11=");
        reveal_strlit("r11");
        assert(x64_labels()[12].skip(x64_labels()[12].len() - "r11"@.len() - 1) =~= "r11"@.push('='));
    }
    assert(label_names(x64_labels()[13], "r12"@)) by {
        reveal_strlit(" r12=");
        reveal_strlit("r12");
        assert(x64_labels()[13].skip(x64_labels()[13].len() - "r12"@.len() - 1) =~= "r12"@.push('='));
    }
    assert(label_names(x64_labels()[14], "r13"@)) by {
        reveal_strlit(" r13=");
        reveal_strlit("r13");
        assert(x64_labels()[14].skip(x64_labels()[14].len() - "r13"@.len() - 1) =~= "r13"@.push('='));
    }
    assert(label_names(x64_labels()[15], "r14"@)) by {
        reveal_strlit("\nr14=");
        reveal_strlit("r14");
        assert(x64_labels()[15].skip(x64_labels()[15].len() - "r14"@.len() - 1) =~= "r14"@.push('='));
    }
    assert(label_names(x64_labels()[16], "r15"@)) by {
        reveal_strlit(" r15=");
        reveal_strlit("r15");
        assert(x64_labels()[16].skip(x64_labels()[16].len() - "r15"@.len() - 1) =~= "r15"@.push('='));
    }
}

/// In the X86 text form, each label names a register and is followed by
/// that register's value.
pub proof fn lemma_x86_text_pairs_labels_with_registers(c: X86Context)
    ensures
        x86_labels().len() == 9,
        x86_values(c).len() == 9,
        x86_values(c)[0] == c.eax as u64 && label_names(x86_labels()[0], "eax"@),
        x86_values(c)[1] == c.ebx as u64 && label_names(x86_labels()[1], "ebx"@),
        x86_values(c)[2] == c.ecx as u64 && label_names(x86_labels()[2], "ecx"@),
        x86_values(c)[3] == c.edx as u64 && label_names(x86_labels()[3], "edx"@),
        x86_values(c)[4] == c.esi as u64 && label_names(x86_labels()[4], "esi"@),
        x86_values(c)[5] == c.edi as u64 && label_names(x86_labels()[5], "edi"@),
        x86_values(c)[6] == c.eip as u64 && label_names(x86_labels()[6], "eip"@),
        x86_values(c)[7] == c.esp as u64 && label_names(x86_labels()[7], "esp"@),
        x86_values(c)[8] == c.ebp as u64 && label_names(x86_labels()[8], "ebp"@),
{
    assert(label_names(x86_labels()[0], "eax"@)) by {
        reveal_strlit("eax=");
        reveal_strlit("eax");
        assert(x86_labels()[0].skip(x86_labels()[0].len() - "eax"@.len() - 1) =~= "eax"@.push('='));
    }
    assert(label_names(x86_labels()[1], "ebx"@)) by {
        reveal_strlit(" ebx=");
        reveal_strlit("ebx");
        assert(x86_labels()[1].skip(x86_labels()[1].len() - "ebx"@.len() - 1) =~= "ebx"@.push('='));
    }
    assert(label_names(x86_labels()[2], "ecx"@)) by {
        reveal_strlit(" ecx=");
        reveal_strlit("ecx");
        assert(x86_labels()[2].skip(x86_labels()[2].len() - "ecx"@.len() - 1) =~= "ecx"@.push('='));
    }
    assert(label_names(x86_labels()[3], "edx"@)) by {
        reveal_strlit(" edx=");
        reveal_strlit("edx");
        assert(x86_labels()[3].skip(x86_labels()[3].len() - "edx"@.len() - 1) =~= "edx"@.push('='));
    }
    assert(label_names(x86_labels()[4], "esi"@)) by {
        reveal_strlit(" esi=");
        reveal_strlit("esi");
        assert(x86_labels()[4].skip(x86_labels()[4].len() - "esi"@.len() - 1) =~= "esi"@.push('='));
    }
    assert(label_names(x86_labels()[5], "edi"@)) by {
        reveal_strlit(" edi=");
        reveal_strlit("edi");
        assert(x86_labels()[5].skip(x86_labels()[5].len() - "edi"@.len() - 1) =~= "edi"@.push('='));
    }
    assert(label_names(x86_labels()[6], "eip"@)) by {
        reveal_strlit("\neip=");
        reveal_strlit("eip");
        assert(x86_labels()[6].skip(x86_labels()[6].len() - "eip"@.len() - 1) =~= "eip"@.push('='));
    }
    assert(label_names(x86_labels()[7], "esp"@)) by {
        reveal_strlit(" esp=");
        reveal_strlit("esp");
        assert(x86_labels()[7].skip(x86_labels()[7].len() - "esp"@.len() - 1) =~= "esp"@.push('='));
    }
    assert(label_names(x86_labels()[8], "ebp"@)) by {
        reveal_strlit(" ebp=");
        reveal_strlit("ebp");
        assert(x86_labels()[8].skip(x86_labels()[8].len() - "ebp"@.len() - 1) =~= "ebp"@.push('='));
    }
}

/// The architecture codes of the system information: 9 is x64, 0 is x86,
/// 12 is ARM64, and no other code names an architecture.
pub proof fn lemma_architecture_codes(v: u16)
    ensures
        architecture_of_code(9) == Some(ProcessorArchitecture::X64),
        architecture_of_code(0) == Some(ProcessorArchitecture::X86),
        architecture_of_code(12) == Some(ProcessorArchitecture::ARM64),
        architecture_of_code(v) is Some <==> (v == 0 || v == 9 || v == 12),
{
}

/// Pointers are eight bytes on the 64-bit architectures (x64 and ARM64) and
/// four bytes on x86, the only 32-bit one.
pub proof fn lemma_pointer_width_of_architectures(a: ProcessorArchitecture)
    ensures
        pointer_width(ProcessorArchitecture::X64) == 8,
        pointer_width(ProcessorArchitecture::ARM64) == 8,
        pointer_width(ProcessorArchitecture::X86) == 4,
        pointer_width(a) == 4 <==> a == ProcessorArchitecture::X86,
        pointer_width(a) == 8 <==> a != ProcessorArchitecture::X86,
{
}

/// The program counter, stack pointer and frame pointer of a context are its
/// `rip`/`eip`/`pc`, `rsp`/`esp`/`sp` and `rbp`/`ebp`/`fp` registers, and its
/// architecture is the one of its register set.
pub proof fn lemma_context_accessors(ctx: RegisterContext)
    ensures
        ctx matches RegisterContext::X64(c) ==> context_pc(ctx) == c.rip && context_sp(ctx) == c.rsp
            && context_fp(ctx) == c.rbp && context_architecture(ctx) == ProcessorArchitecture::X64,
        ctx matches RegisterContext::X86(c) ==> context_pc(ctx) == c.eip as u64 && context_sp(ctx) == c.esp as u64
            && context_fp(ctx) == c.ebp as u64 && context_architecture(ctx) == ProcessorArchitecture::X86,
        ctx matches RegisterContext::ARM64(c) ==> context_pc(ctx) == c.pc && context_sp(ctx) == c.sp
            && context_fp(ctx) == c.fp && context_architecture(ctx) == ProcessorArchitecture::ARM64,
{
}

} // verus!
