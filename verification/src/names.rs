//! Names of the RISC-V relocation kinds, for diagnostics.

use vstd::prelude::*;

verus! {

/// The psABI name of a relocation kind, or `UNKNOWN` for a number that has
/// none.
pub open spec fn rel_name(r_type: u32) -> Seq<char> {
    match r_type {
        0 => "R_RISCV_NONE"@,
        1 => "R_RISCV_32"@,
        2 => "R_RISCV_64"@,
        3 => "R_RISCV_RELATIVE"@,
        4 => "R_RISCV_COPY"@,
        5 => "R_RISCV_JUMP_SLOT"@,
        6 => "R_RISCV_TLS_DTPMOD32"@,
        7 => "R_RISCV_TLS_DTPMOD64"@,
        8 => "R_RISCV_TLS_DTPREL32"@,
        9 => "R_RISCV_TLS_DTPREL64"@,
        10 => "R_RISCV_TLS_TPREL32"@,
        11 => "R_RISCV_TLS_TPREL64"@,
        16 => "R_RISCV_BRANCH"@,
        17 => "R_RISCV_JAL"@,
        18 => "R_RISCV_CALL"@,
        19 => "R_RISCV_CALL_PLT"@,
        20 => "R_RISCV_GOT_HI20"@,
        21 => "R_RISCV_TLS_GOT_HI20"@,
        22 => "R_RISCV_TLS_GD_HI20"@,
        23 => "R_RISCV_PCREL_HI20"@,
        24 => "R_RISCV_PCREL_LO12_I"@,
        25 => "R_RISCV_PCREL_LO12_S"@,
        26 => "R_RISCV_HI20"@,
        27 => "R_RISCV_LO12_I"@,
        28 => "R_RISCV_LO12_S"@,
        29 => "R_RISCV_TPREL_HI20"@,
        30 => "R_RISCV_TPREL_LO12_I"@,
        31 => "R_RISCV_TPREL_LO12_S"@,
        32 => "R_RISCV_TPREL_ADD"@,
        33 => "R_RISCV_ADD8"@,
        34 => "R_RISCV_ADD16"@,
        35 => "R_RISCV_ADD32"@,
        36 => "R_RISCV_ADD64"@,
        37 => "R_RISCV_SUB8"@,
        38 => "R_RISCV_SUB16"@,
        39 => "R_RISCV_SUB32"@,
        40 => "R_RISCV_SUB64"@,
        43 => "R_RISCV_ALIGN"@,
        44 => "R_RISCV_RVC_BRANCH"@,
        45 => "R_RISCV_RVC_JUMP"@,
        46 => "R_RISCV_RVC_LUI"@,
        51 => "R_RISCV_RELAX"@,
        52 => "R_RISCV_SUB6"@,
        53 => "R_RISCV_SET6"@,
        54 => "R_RISCV_SET8"@,
        55 => "R_RISCV_SET16"@,
        56 => "R_RISCV_SET32"@,
        57 => "R_RISCV_32_PCREL"@,
        58 => "R_RISCV_IRELATIVE"@,
        _ => "UNKNOWN"@,
    }
}

/// Returns the psABI name of a relocation kind, or `UNKNOWN` for a number
/// that has none.
pub fn riscv_rel_name(r_type: u32) -> (name: &'static str)
    ensures
        name@ == rel_name(r_type),
{
    match r_type {
        0 => "R_RISCV_NONE",
        1 => "R_RISCV_32",
        2 => "R_RISCV_64",
        3 => "R_RISCV_RELATIVE",
        4 => "R_RISCV_COPY",
        5 => "R_RISCV_JUMP_SLOT",
        6 => "R_RISCV_TLS_DTPMOD32",
        7 => "R_RISCV_TLS_DTPMOD64",
        8 => "R_RISCV_TLS_DTPREL32",
        9 => "R_RISCV_TLS_DTPREL64",
        10 => "R_RISCV_TLS_TPREL32",
        11 => "R_RISCV_TLS_TPREL64",
        16 => "R_RISCV_BRANCH",
        17 => "R_RISCV_JAL",
        18 => "R_RISCV_CALL",
        19 => "R_RISCV_CALL_PLT",
        20 => "R_RISCV_GOT_HI20",
        21 => "R_RISCV_TLS_GOT_HI20",
        22 => "R_RISCV_TLS_GD_HI20",
        23 => "R_RISCV_PCREL_HI20",
        24 => "R_RISCV_PCREL_LO12_I",
        25 => "R_RISCV_PCREL_LO12_S",
        26 => "R_RISCV_HI20",
        27 => "R_RISCV_LO12_I",
        28 => "R_RISCV_LO12_S",
        29 => "R_RISCV_TPREL_HI20",
        30 => "R_RISCV_TPREL_LO12_I",
        31 => "R_RISCV_TPREL_LO12_S",
        32 => "R_RISCV_TPREL_ADD",
        33 => "R_RISCV_ADD8",
        34 => "R_RISCV_ADD16",
        35 => "R_RISCV_ADD32",
        36 => "R_RISCV_ADD64",
        37 => "R_RISCV_SUB8",
        38 => "R_RISCV_SUB16",
        39 => "R_RISCV_SUB32",
        40 => "R_RISCV_SUB64",
        43 => "R_RISCV_ALIGN",
        44 => "R_RISCV_RVC_BRANCH",
        45 => "R_RISCV_RVC_JUMP",
        46 => "R_RISCV_RVC_LUI",
        51 => "R_RISCV_RELAX",
        52 => "R_RISCV_SUB6",
        53 => "R_RISCV_SET6",
        54 => "R_RISCV_SET8",
        55 => "R_RISCV_SET16",
        56 => "R_RISCV_SET32",
        57 => "R_RISCV_32_PCREL",
        58 => "R_RISCV_IRELATIVE",
        _ => "UNKNOWN",
    }
}

} // verus!
