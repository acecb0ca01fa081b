use vstd::prelude::*;
use crate::cpu::{base_cycle_count, cb_cycle_count};
use crate::semantics::{base_cycles, cb_cycles};

verus! {

/// The base instruction table, one variant per opcode byte, in byte order.
#[derive(Clone, Copy, Debug, PartialEq, Eq, Structural)]
pub enum Opcode {
    Nop,
    LdBCNN,
    LdBCPtrA,
    IncBC,
    IncB,
    DecB,
    LdBN,
    Rlca,
    LdNNSP,
    AddHLBC,
    LdABCPtr,
    DecBC,
    IncC,
    DecC,
    LdCN,
    Rrca,
    Stop,
    LdDENN,
    LdDEPtrA,
    IncDE,
    IncD,
    DecD,
    LdDN,
    Rla,
    JrN,
    AddHLDE,
    LdADEPtr,
    DecDE,
    IncE,
    DecE,
    LdEN,
    Rra,
    JrNZN,
    LdHLNN,
    LdHLIncA,
    IncHL,
    IncH,
    DecH,
    LdHN,
    Daa,
    JrZN,
    AddHLHL,
    LdAHLInc,
    DecHL,
    IncL,
    DecL,
    LdLN,
    Cpl,
    JrNCN,
    LdSPNN,
    LdHLDecA,
    IncSP,
    IncHLPtr,
    DecHLPtr,
    LdHLPtrN,
    Scf,
    JrCN,
    AddHLSP,
    LdAHLDec,
    DecSP,
    IncA,
    DecA,
    LdAN,
    Ccf,
    LdBB,
    LdBC,
    LdBD,
    LdBE,
    LdBH,
    LdBL,
    LdBHLPtr,
    LdBA,
    LdCB,
    LdCC,
    LdCD,
    LdCE,
    LdCH,
    LdCL,
    LdCHLPtr,
    LdCA,
    LdDB,
    LdDC,
    LdDD,
    LdDE,
    LdDH,
    LdDL,
    LdDHLPtr,
    LdDA,
    LdEB,
    LdEC,
    LdED,
    LdEE,
    LdEH,
    LdEL,
    LdEHLPtr,
    LdEA,
    LdHB,
    LdHC,
    LdHD,
    LdHE,
    LdHH,
    LdHL,
    LdHHLPtr,
    LdHA,
    LdLB,
    LdLC,
    LdLD,
    LdLE,
    LdLH,
    LdLL,
    LdLHLPtr,
    LdLA,
    LdHLPtrB,
    LdHLPtrC,
    LdHLPtrD,
    LdHLPtrE,
    LdHLPtrH,
    LdHLPtrL,
    Halt,
    LdHLPtrA,
    LdAB,
    LdAC,
    LdAD,
    LdAE,
    LdAH,
    LdAL,
    LdAHLPtr,
    LdAA,
    AddAB,
    AddAC,
    AddAD,
    AddAE,
    AddAH,
    AddAL,
    AddAHLPtr,
    AddAA,
    AdcAB,
    AdcAC,
    AdcAD,
    AdcAE,
    AdcAH,
    AdcAL,
    AdcAHLPtr,
    AdcAA,
    SubB,
    SubC,
    SubD,
    SubE,
    SubH,
    SubL,
    SubHLPtr,
    SubA,
    SbcAB,
    SbcAC,
    SbcAD,
    SbcAE,
    SbcAH,
    SbcAL,
    SbcAHLPtr,
    SbcAA,
    AndB,
    AndC,
    AndD,
    AndE,
    AndH,
    AndL,
    AndHLPtr,
    AndA,
    XorB,
    XorC,
    XorD,
    XorE,
    XorH,
    XorL,
    XorHLPtr,
    XorA,
    OrB,
    OrC,
    OrD,
    OrE,
    OrH,
    OrL,
    OrHLPtr,
    OrA,
    CpB,
    CpC,
    CpD,
    CpE,
    CpH,
    CpL,
    CpHLPtr,
    CpA,
    RetNZ,
    PopBC,
    JpNZNN,
    JpNN,
    CallNZNN,
    PushBC,
    AddAN,
    Rst00,
    RetZ,
    Ret,
    JpZNN,
    CbPrefix,
    CallZNN,
    CallNN,
    AdcAN,
    Rst08,
    RetNC,
    PopDE,
    JpNCNN,
    IllegalD3,
    CallNCNN,
    PushDE,
    SubN,
    Rst10,
    RetC,
    Reti,
    JpCNN,
    IllegalDB,
    CallCNN,
    IllegalDD,
    SbcAN,
    Rst18,
    LdhNA,
    PopHL,
    LdhCA,
    IllegalE3,
    IllegalE4,
    PushHL,
    AndN,
    Rst20,
    AddSPN,
    JpHL,
    LdNNPtrA,
    IllegalEB,
    IllegalEC,
    IllegalED,
    XorN,
    Rst28,
    LdhAN,
    PopAF,
    LdhAC,
    Di,
    IllegalF4,
    PushAF,
    OrN,
    Rst30,
    LdHLSPN,
    LdSPHL,
    LdANNPtr,
    Ei,
    IllegalFC,
    IllegalFD,
    CpN,
    Rst38,
}

impl Opcode {
    /// The opcode byte.
    pub open spec fn spec_byte(self) -> u8 {
        match self {
            Opcode::Nop => 0x00,
            Opcode::LdBCNN => 0x01,
            Opcode::LdBCPtrA => 0x02,
            Opcode::IncBC => 0x03,
            Opcode::IncB => 0x04,
            Opcode::DecB => 0x05,
            Opcode::LdBN => 0x06,
            Opcode::Rlca => 0x07,
            Opcode::LdNNSP => 0x08,
            Opcode::AddHLBC => 0x09,
            Opcode::LdABCPtr => 0x0A,
            Opcode::DecBC => 0x0B,
            Opcode::IncC => 0x0C,
            Opcode::DecC => 0x0D,
            Opcode::LdCN => 0x0E,
            Opcode::Rrca => 0x0F,
            Opcode::Stop => 0x10,
            Opcode::LdDENN => 0x11,
            Opcode::LdDEPtrA => 0x12,
            Opcode::IncDE => 0x13,
            Opcode::IncD => 0x14,
            Opcode::DecD => 0x15,
            Opcode::LdDN => 0x16,
            Opcode::Rla => 0x17,
            Opcode::JrN => 0x18,
            Opcode::AddHLDE => 0x19,
            Opcode::LdADEPtr => 0x1A,
            Opcode::DecDE => 0x1B,
            Opcode::IncE => 0x1C,
            Opcode::DecE => 0x1D,
            Opcode::LdEN => 0x1E,
            Opcode::Rra => 0x1F,
            Opcode::JrNZN => 0x20,
            Opcode::LdHLNN => 0x21,
            Opcode::LdHLIncA => 0x22,
            Opcode::IncHL => 0x23,
            Opcode::IncH => 0x24,
            Opcode::DecH => 0x25,
            Opcode::LdHN => 0x26,
            Opcode::Daa => 0x27,
            Opcode::JrZN => 0x28,
            Opcode::AddHLHL => 0x29,
            Opcode::LdAHLInc => 0x2A,
            Opcode::DecHL => 0x2B,
            Opcode::IncL => 0x2C,
            Opcode::DecL => 0x2D,
            Opcode::LdLN => 0x2E,
            Opcode::Cpl => 0x2F,
            Opcode::JrNCN => 0x30,
            Opcode::LdSPNN => 0x31,
            Opcode::LdHLDecA => 0x32,
            Opcode::IncSP => 0x33,
            Opcode::IncHLPtr => 0x34,
            Opcode::DecHLPtr => 0x35,
            Opcode::LdHLPtrN => 0x36,
            Opcode::Scf => 0x37,
            Opcode::JrCN => 0x38,
            Opcode::AddHLSP => 0x39,
            Opcode::LdAHLDec => 0x3A,
            Opcode::DecSP => 0x3B,
            Opcode::IncA => 0x3C,
            Opcode::DecA => 0x3D,
            Opcode::LdAN => 0x3E,
            Opcode::Ccf => 0x3F,
            Opcode::LdBB => 0x40,
            Opcode::LdBC => 0x41,
            Opcode::LdBD => 0x42,
            Opcode::LdBE => 0x43,
            Opcode::LdBH => 0x44,
            Opcode::LdBL => 0x45,
            Opcode::LdBHLPtr => 0x46,
            Opcode::LdBA => 0x47,
            Opcode::LdCB => 0x48,
            Opcode::LdCC => 0x49,
            Opcode::LdCD => 0x4A,
            Opcode::LdCE => 0x4B,
            Opcode::LdCH => 0x4C,
            Opcode::LdCL => 0x4D,
            Opcode::LdCHLPtr => 0x4E,
            Opcode::LdCA => 0x4F,
            Opcode::LdDB => 0x50,
            Opcode::LdDC => 0x51,
            Opcode::LdDD => 0x52,
            Opcode::LdDE => 0x53,
            Opcode::LdDH => 0x54,
            Opcode::LdDL => 0x55,
            Opcode::LdDHLPtr => 0x56,
            Opcode::LdDA => 0x57,
            Opcode::LdEB => 0x58,
            Opcode::LdEC => 0x59,
            Opcode::LdED => 0x5A,
            Opcode::LdEE => 0x5B,
            Opcode::LdEH => 0x5C,
            Opcode::LdEL => 0x5D,
            Opcode::LdEHLPtr => 0x5E,
            Opcode::LdEA => 0x5F,
            Opcode::LdHB => 0x60,
            Opcode::LdHC => 0x61,
            Opcode::LdHD => 0x62,
            Opcode::LdHE => 0x63,
            Opcode::LdHH => 0x64,
            Opcode::LdHL => 0x65,
            Opcode::LdHHLPtr => 0x66,
            Opcode::LdHA => 0x67,
            Opcode::LdLB => 0x68,
            Opcode::LdLC => 0x69,
            Opcode::LdLD => 0x6A,
            Opcode::LdLE => 0x6B,
            Opcode::LdLH => 0x6C,
            Opcode::LdLL => 0x6D,
            Opcode::LdLHLPtr => 0x6E,
            Opcode::LdLA => 0x6F,
            Opcode::LdHLPtrB => 0x70,
            Opcode::LdHLPtrC => 0x71,
            Opcode::LdHLPtrD => 0x72,
            Opcode::LdHLPtrE => 0x73,
            Opcode::LdHLPtrH => 0x74,
            Opcode::LdHLPtrL => 0x75,
            Opcode::Halt => 0x76,
            Opcode::LdHLPtrA => 0x77,
            Opcode::LdAB => 0x78,
            Opcode::LdAC => 0x79,
            Opcode::LdAD => 0x7A,
            Opcode::LdAE => 0x7B,
            Opcode::LdAH => 0x7C,
            Opcode::LdAL => 0x7D,
            Opcode::LdAHLPtr => 0x7E,
            Opcode::LdAA => 0x7F,
            Opcode::AddAB => 0x80,
            Opcode::AddAC => 0x81,
            Opcode::AddAD => 0x82,
            Opcode::AddAE => 0x83,
            Opcode::AddAH => 0x84,
            Opcode::AddAL => 0x85,
            Opcode::AddAHLPtr => 0x86,
            Opcode::AddAA => 0x87,
            Opcode::AdcAB => 0x88,
            Opcode::AdcAC => 0x89,
            Opcode::AdcAD => 0x8A,
            Opcode::AdcAE => 0x8B,
            Opcode::AdcAH => 0x8C,
            Opcode::AdcAL => 0x8D,
            Opcode::AdcAHLPtr => 0x8E,
            Opcode::AdcAA => 0x8F,
            Opcode::SubB => 0x90,
            Opcode::SubC => 0x91,
            Opcode::SubD => 0x92,
            Opcode::SubE => 0x93,
            Opcode::SubH => 0x94,
            Opcode::SubL => 0x95,
            Opcode::SubHLPtr => 0x96,
            Opcode::SubA => 0x97,
            Opcode::SbcAB => 0x98,
            Opcode::SbcAC => 0x99,
            Opcode::SbcAD => 0x9A,
            Opcode::SbcAE => 0x9B,
            Opcode::SbcAH => 0x9C,
            Opcode::SbcAL => 0x9D,
            Opcode::SbcAHLPtr => 0x9E,
            Opcode::SbcAA => 0x9F,
            Opcode::AndB => 0xA0,
            Opcode::AndC => 0xA1,
            Opcode::AndD => 0xA2,
            Opcode::AndE => 0xA3,
            Opcode::AndH => 0xA4,
            Opcode::AndL => 0xA5,
            Opcode::AndHLPtr => 0xA6,
            Opcode::AndA => 0xA7,
            Opcode::XorB => 0xA8,
            Opcode::XorC => 0xA9,
            Opcode::XorD => 0xAA,
            Opcode::XorE => 0xAB,
            Opcode::XorH => 0xAC,
            Opcode::XorL => 0xAD,
            Opcode::XorHLPtr => 0xAE,
            Opcode::XorA => 0xAF,
            Opcode::OrB => 0xB0,
            Opcode::OrC => 0xB1,
            Opcode::OrD => 0xB2,
            Opcode::OrE => 0xB3,
            Opcode::OrH => 0xB4,
            Opcode::OrL => 0xB5,
            Opcode::OrHLPtr => 0xB6,
            Opcode::OrA => 0xB7,
            Opcode::CpB => 0xB8,
            Opcode::CpC => 0xB9,
            Opcode::CpD => 0xBA,
            Opcode::CpE => 0xBB,
            Opcode::CpH => 0xBC,
            Opcode::CpL => 0xBD,
            Opcode::CpHLPtr => 0xBE,
            Opcode::CpA => 0xBF,
            Opcode::RetNZ => 0xC0,
            Opcode::PopBC => 0xC1,
            Opcode::JpNZNN => 0xC2,
            Opcode::JpNN => 0xC3,
            Opcode::CallNZNN => 0xC4,
            Opcode::PushBC => 0xC5,
            Opcode::AddAN => 0xC6,
            Opcode::Rst00 => 0xC7,
            Opcode::RetZ => 0xC8,
            Opcode::Ret => 0xC9,
            Opcode::JpZNN => 0xCA,
            Opcode::CbPrefix => 0xCB,
            Opcode::CallZNN => 0xCC,
            Opcode::CallNN => 0xCD,
            Opcode::AdcAN => 0xCE,
            Opcode::Rst08 => 0xCF,
            Opcode::RetNC => 0xD0,
            Opcode::PopDE => 0xD1,
            Opcode::JpNCNN => 0xD2,
            Opcode::IllegalD3 => 0xD3,
            Opcode::CallNCNN => 0xD4,
            Opcode::PushDE => 0xD5,
            Opcode::SubN => 0xD6,
            Opcode::Rst10 => 0xD7,
            Opcode::RetC => 0xD8,
            Opcode::Reti => 0xD9,
            Opcode::JpCNN => 0xDA,
            Opcode::IllegalDB => 0xDB,
            Opcode::CallCNN => 0xDC,
            Opcode::IllegalDD => 0xDD,
            Opcode::SbcAN => 0xDE,
            Opcode::Rst18 => 0xDF,
            Opcode::LdhNA => 0xE0,
            Opcode::PopHL => 0xE1,
            Opcode::LdhCA => 0xE2,
            Opcode::IllegalE3 => 0xE3,
            Opcode::IllegalE4 => 0xE4,
            Opcode::PushHL => 0xE5,
            Opcode::AndN => 0xE6,
            Opcode::Rst20 => 0xE7,
            Opcode::AddSPN => 0xE8,
            Opcode::JpHL => 0xE9,
            Opcode::LdNNPtrA => 0xEA,
            Opcode::IllegalEB => 0xEB,
            Opcode::IllegalEC => 0xEC,
            Opcode::IllegalED => 0xED,
            Opcode::XorN => 0xEE,
            Opcode::Rst28 => 0xEF,
            Opcode::LdhAN => 0xF0,
            Opcode::PopAF => 0xF1,
            Opcode::LdhAC => 0xF2,
            Opcode::Di => 0xF3,
            Opcode::IllegalF4 => 0xF4,
            Opcode::PushAF => 0xF5,
            Opcode::OrN => 0xF6,
            Opcode::Rst30 => 0xF7,
            Opcode::LdHLSPN => 0xF8,
            Opcode::LdSPHL => 0xF9,
            Opcode::LdANNPtr => 0xFA,
            Opcode::Ei => 0xFB,
            Opcode::IllegalFC => 0xFC,
            Opcode::IllegalFD => 0xFD,
            Opcode::CpN => 0xFE,
            Opcode::Rst38 => 0xFF,
        }
    }

    pub fn byte(&self) -> (r: u8)
        ensures
            r == self.spec_byte(),
    {
        match self {
            Opcode::Nop => 0x00,
            Opcode::LdBCNN => 0x01,
            Opcode::LdBCPtrA => 0x02,
            Opcode::IncBC => 0x03,
            Opcode::IncB => 0x04,
            Opcode::DecB => 0x05,
            Opcode::LdBN => 0x06,
            Opcode::Rlca => 0x07,
            Opcode::LdNNSP => 0x08,
            Opcode::AddHLBC => 0x09,
            Opcode::LdABCPtr => 0x0A,
            Opcode::DecBC => 0x0B,
            Opcode::IncC => 0x0C,
            Opcode::DecC => 0x0D,
            Opcode::LdCN => 0x0E,
            Opcode::Rrca => 0x0F,
            Opcode::Stop => 0x10,
            Opcode::LdDENN => 0x11,
            Opcode::LdDEPtrA => 0x12,
            Opcode::IncDE => 0x13,
            Opcode::IncD => 0x14,
            Opcode::DecD => 0x15,
            Opcode::LdDN => 0x16,
            Opcode::Rla => 0x17,
            Opcode::JrN => 0x18,
            Opcode::AddHLDE => 0x19,
            Opcode::LdADEPtr => 0x1A,
            Opcode::DecDE => 0x1B,
            Opcode::IncE => 0x1C,
            Opcode::DecE => 0x1D,
            Opcode::LdEN => 0x1E,
            Opcode::Rra => 0x1F,
            Opcode::JrNZN => 0x20,
            Opcode::LdHLNN => 0x21,
            Opcode::LdHLIncA => 0x22,
            Opcode::IncHL => 0x23,
            Opcode::IncH => 0x24,
            Opcode::DecH => 0x25,
            Opcode::LdHN => 0x26,
            Opcode::Daa => 0x27,
            Opcode::JrZN => 0x28,
            Opcode::AddHLHL => 0x29,
            Opcode::LdAHLInc => 0x2A,
            Opcode::DecHL => 0x2B,
            Opcode::IncL => 0x2C,
            Opcode::DecL => 0x2D,
            Opcode::LdLN => 0x2E,
            Opcode::Cpl => 0x2F,
            Opcode::JrNCN => 0x30,
            Opcode::LdSPNN => 0x31,
            Opcode::LdHLDecA => 0x32,
            Opcode::IncSP => 0x33,
            Opcode::IncHLPtr => 0x34,
            Opcode::DecHLPtr => 0x35,
            Opcode::LdHLPtrN => 0x36,
            Opcode::Scf => 0x37,
            Opcode::JrCN => 0x38,
            Opcode::AddHLSP => 0x39,
            Opcode::LdAHLDec => 0x3A,
            Opcode::DecSP => 0x3B,
            Opcode::IncA => 0x3C,
            Opcode::DecA => 0x3D,
            Opcode::LdAN => 0x3E,
            Opcode::Ccf => 0x3F,
            Opcode::LdBB => 0x40,
            Opcode::LdBC => 0x41,
            Opcode::LdBD => 0x42,
            Opcode::LdBE => 0x43,
            Opcode::LdBH => 0x44,
            Opcode::LdBL => 0x45,
            Opcode::LdBHLPtr => 0x46,
            Opcode::LdBA => 0x47,
            Opcode::LdCB => 0x48,
            Opcode::LdCC => 0x49,
            Opcode::LdCD => 0x4A,
            Opcode::LdCE => 0x4B,
            Opcode::LdCH => 0x4C,
            Opcode::LdCL => 0x4D,
            Opcode::LdCHLPtr => 0x4E,
            Opcode::LdCA => 0x4F,
            Opcode::LdDB => 0x50,
            Opcode::LdDC => 0x51,
            Opcode::LdDD => 0x52,
            Opcode::LdDE => 0x53,
            Opcode::LdDH => 0x54,
            Opcode::LdDL => 0x55,
            Opcode::LdDHLPtr => 0x56,
            Opcode::LdDA => 0x57,
            Opcode::LdEB => 0x58,
            Opcode::LdEC => 0x59,
            Opcode::LdED => 0x5A,
            Opcode::LdEE => 0x5B,
            Opcode::LdEH => 0x5C,
            Opcode::LdEL => 0x5D,
            Opcode::LdEHLPtr => 0x5E,
            Opcode::LdEA => 0x5F,
            Opcode::LdHB => 0x60,
            Opcode::LdHC => 0x61,
            Opcode::LdHD => 0x62,
            Opcode::LdHE => 0x63,
            Opcode::LdHH => 0x64,
            Opcode::LdHL => 0x65,
            Opcode::LdHHLPtr => 0x66,
            Opcode::LdHA => 0x67,
            Opcode::LdLB => 0x68,
            Opcode::LdLC => 0x69,
            Opcode::LdLD => 0x6A,
            Opcode::LdLE => 0x6B,
            Opcode::LdLH => 0x6C,
            Opcode::LdLL => 0x6D,
            Opcode::LdLHLPtr => 0x6E,
            Opcode::LdLA => 0x6F,
            Opcode::LdHLPtrB => 0x70,
            Opcode::LdHLPtrC => 0x71,
            Opcode::LdHLPtrD => 0x72,
            Opcode::LdHLPtrE => 0x73,
            Opcode::LdHLPtrH => 0x74,
            Opcode::LdHLPtrL => 0x75,
            Opcode::Halt => 0x76,
            Opcode::LdHLPtrA => 0x77,
            Opcode::LdAB => 0x78,
            Opcode::LdAC => 0x79,
            Opcode::LdAD => 0x7A,
            Opcode::LdAE => 0x7B,
            Opcode::LdAH => 0x7C,
            Opcode::LdAL => 0x7D,
            Opcode::LdAHLPtr => 0x7E,
            Opcode::LdAA => 0x7F,
            Opcode::AddAB => 0x80,
            Opcode::AddAC => 0x81,
            Opcode::AddAD => 0x82,
            Opcode::AddAE => 0x83,
            Opcode::AddAH => 0x84,
            Opcode::AddAL => 0x85,
            Opcode::AddAHLPtr => 0x86,
            Opcode::AddAA => 0x87,
            Opcode::AdcAB => 0x88,
            Opcode::AdcAC => 0x89,
            Opcode::AdcAD => 0x8A,
            Opcode::AdcAE => 0x8B,
            Opcode::AdcAH => 0x8C,
            Opcode::AdcAL => 0x8D,
            Opcode::AdcAHLPtr => 0x8E,
            Opcode::AdcAA => 0x8F,
            Opcode::SubB => 0x90,
            Opcode::SubC => 0x91,
            Opcode::SubD => 0x92,
            Opcode::SubE => 0x93,
            Opcode::SubH => 0x94,
            Opcode::SubL => 0x95,
            Opcode::SubHLPtr => 0x96,
            Opcode::SubA => 0x97,
            Opcode::SbcAB => 0x98,
            Opcode::SbcAC => 0x99,
            Opcode::SbcAD => 0x9A,
            Opcode::SbcAE => 0x9B,
            Opcode::SbcAH => 0x9C,
            Opcode::SbcAL => 0x9D,
            Opcode::SbcAHLPtr => 0x9E,
            Opcode::SbcAA => 0x9F,
            Opcode::AndB => 0xA0,
            Opcode::AndC => 0xA1,
            Opcode::AndD => 0xA2,
            Opcode::AndE => 0xA3,
            Opcode::AndH => 0xA4,
            Opcode::AndL => 0xA5,
            Opcode::AndHLPtr => 0xA6,
            Opcode::AndA => 0xA7,
            Opcode::XorB => 0xA8,
            Opcode::XorC => 0xA9,
            Opcode::XorD => 0xAA,
            Opcode::XorE => 0xAB,
            Opcode::XorH => 0xAC,
            Opcode::XorL => 0xAD,
            Opcode::XorHLPtr => 0xAE,
            Opcode::XorA => 0xAF,
            Opcode::OrB => 0xB0,
            Opcode::OrC => 0xB1,
            Opcode::OrD => 0xB2,
            Opcode::OrE => 0xB3,
            Opcode::OrH => 0xB4,
            Opcode::OrL => 0xB5,
            Opcode::OrHLPtr => 0xB6,
            Opcode::OrA => 0xB7,
            Opcode::CpB => 0xB8,
            Opcode::CpC => 0xB9,
            Opcode::CpD => 0xBA,
            Opcode::CpE => 0xBB,
            Opcode::CpH => 0xBC,
            Opcode::CpL => 0xBD,
            Opcode::CpHLPtr => 0xBE,
            Opcode::CpA => 0xBF,
            Opcode::RetNZ => 0xC0,
            Opcode::PopBC => 0xC1,
            Opcode::JpNZNN => 0xC2,
            Opcode::JpNN => 0xC3,
            Opcode::CallNZNN => 0xC4,
            Opcode::PushBC => 0xC5,
            Opcode::AddAN => 0xC6,
            Opcode::Rst00 => 0xC7,
            Opcode::RetZ => 0xC8,
            Opcode::Ret => 0xC9,
            Opcode::JpZNN => 0xCA,
            Opcode::CbPrefix => 0xCB,
            Opcode::CallZNN => 0xCC,
            Opcode::CallNN => 0xCD,
            Opcode::AdcAN => 0xCE,
            Opcode::Rst08 => 0xCF,
            Opcode::RetNC => 0xD0,
            Opcode::PopDE => 0xD1,
            Opcode::JpNCNN => 0xD2,
            Opcode::IllegalD3 => 0xD3,
            Opcode::CallNCNN => 0xD4,
            Opcode::PushDE => 0xD5,
            Opcode::SubN => 0xD6,
            Opcode::Rst10 => 0xD7,
            Opcode::RetC => 0xD8,
            Opcode::Reti => 0xD9,
            Opcode::JpCNN => 0xDA,
            Opcode::IllegalDB => 0xDB,
            Opcode::CallCNN => 0xDC,
            Opcode::IllegalDD => 0xDD,
            Opcode::SbcAN => 0xDE,
            Opcode::Rst18 => 0xDF,
            Opcode::LdhNA => 0xE0,
            Opcode::PopHL => 0xE1,
            Opcode::LdhCA => 0xE2,
            Opcode::IllegalE3 => 0xE3,
            Opcode::IllegalE4 => 0xE4,
            Opcode::PushHL => 0xE5,
            Opcode::AndN => 0xE6,
            Opcode::Rst20 => 0xE7,
            Opcode::AddSPN => 0xE8,
            Opcode::JpHL => 0xE9,
            Opcode::LdNNPtrA => 0xEA,
            Opcode::IllegalEB => 0xEB,
            Opcode::IllegalEC => 0xEC,
            Opcode::IllegalED => 0xED,
            Opcode::XorN => 0xEE,
            Opcode::Rst28 => 0xEF,
            Opcode::LdhAN => 0xF0,
            Opcode::PopAF => 0xF1,
            Opcode::LdhAC => 0xF2,
            Opcode::Di => 0xF3,
            Opcode::IllegalF4 => 0xF4,
            Opcode::PushAF => 0xF5,
            Opcode::OrN => 0xF6,
            Opcode::Rst30 => 0xF7,
            Opcode::LdHLSPN => 0xF8,
            Opcode::LdSPHL => 0xF9,
            Opcode::LdANNPtr => 0xFA,
            Opcode::Ei => 0xFB,
            Opcode::IllegalFC => 0xFC,
            Opcode::IllegalFD => 0xFD,
            Opcode::CpN => 0xFE,
            Opcode::Rst38 => 0xFF,
        }
    }

    #[verifier::rlimit(100)]
    pub fn from_byte(b: u8) -> (r: Opcode)
        ensures
            r.spec_byte() == b,
    {
        match b {
            0x00 => Opcode::Nop,
            0x01 => Opcode::LdBCNN,
            0x02 => Opcode::LdBCPtrA,
            0x03 => Opcode::IncBC,
            0x04 => Opcode::IncB,
            0x05 => Opcode::DecB,
            0x06 => Opcode::LdBN,
            0x07 => Opcode::Rlca,
            0x08 => Opcode::LdNNSP,
            0x09 => Opcode::AddHLBC,
            0x0A => Opcode::LdABCPtr,
            0x0B => Opcode::DecBC,
            0x0C => Opcode::IncC,
            0x0D => Opcode::DecC,
            0x0E => Opcode::LdCN,
            0x0F => Opcode::Rrca,
            0x10 => Opcode::Stop,
            0x11 => Opcode::LdDENN,
            0x12 => Opcode::LdDEPtrA,
            0x13 => Opcode::IncDE,
            0x14 => Opcode::IncD,
            0x15 => Opcode::DecD,
            0x16 => Opcode::LdDN,
            0x17 => Opcode::Rla,
            0x18 => Opcode::JrN,
            0x19 => Opcode::AddHLDE,
            0x1A => Opcode::LdADEPtr,
            0x1B => Opcode::DecDE,
            0x1C => Opcode::IncE,
            0x1D => Opcode::DecE,
            0x1E => Opcode::LdEN,
            0x1F => Opcode::Rra,
            0x20 => Opcode::JrNZN,
            0x21 => Opcode::LdHLNN,
            0x22 => Opcode::LdHLIncA,
            0x23 => Opcode::IncHL,
            0x24 => Opcode::IncH,
            0x25 => Opcode::DecH,
            0x26 => Opcode::LdHN,
            0x27 => Opcode::Daa,
            0x28 => Opcode::JrZN,
            0x29 => Opcode::AddHLHL,
            0x2A => Opcode::LdAHLInc,
            0x2B => Opcode::DecHL,
            0x2C => Opcode::IncL,
            0x2D => Opcode::DecL,
            0x2E => Opcode::LdLN,
            0x2F => Opcode::Cpl,
            0x30 => Opcode::JrNCN,
            0x31 => Opcode::LdSPNN,
            0x32 => Opcode::LdHLDecA,
            0x33 => Opcode::IncSP,
            0x34 => Opcode::IncHLPtr,
            0x35 => Opcode::DecHLPtr,
            0x36 => Opcode::LdHLPtrN,
            0x37 => Opcode::Scf,
            0x38 => Opcode::JrCN,
            0x39 => Opcode::AddHLSP,
            0x3A => Opcode::LdAHLDec,
            0x3B => Opcode::DecSP,
            0x3C => Opcode::IncA,
            0x3D => Opcode::DecA,
            0x3E => Opcode::LdAN,
            0x3F => Opcode::Ccf,
            0x40 => Opcode::LdBB,
            0x41 => Opcode::LdBC,
            0x42 => Opcode::LdBD,
            0x43 => Opcode::LdBE,
            0x44 => Opcode::LdBH,
            0x45 => Opcode::LdBL,
            0x46 => Opcode::LdBHLPtr,
            0x47 => Opcode::LdBA,
            0x48 => Opcode::LdCB,
            0x49 => Opcode::LdCC,
            0x4A => Opcode::LdCD,
            0x4B => Opcode::LdCE,
            0x4C => Opcode::LdCH,
            0x4D => Opcode::LdCL,
            0x4E => Opcode::LdCHLPtr,
            0x4F => Opcode::LdCA,
            0x50 => Opcode::LdDB,
            0x51 => Opcode::LdDC,
            0x52 => Opcode::LdDD,
            0x53 => Opcode::LdDE,
            0x54 => Opcode::LdDH,
            0x55 => Opcode::LdDL,
            0x56 => Opcode::LdDHLPtr,
            0x57 => Opcode::LdDA,
            0x58 => Opcode::LdEB,
            0x59 => Opcode::LdEC,
            0x5A => Opcode::LdED,
            0x5B => Opcode::LdEE,
            0x5C => Opcode::LdEH,
            0x5D => Opcode::LdEL,
            0x5E => Opcode::LdEHLPtr,
            0x5F => Opcode::LdEA,
            0x60 => Opcode::LdHB,
            0x61 => Opcode::LdHC,
            0x62 => Opcode::LdHD,
            0x63 => Opcode::LdHE,
            0x64 => Opcode::LdHH,
            0x65 => Opcode::LdHL,
            0x66 => Opcode::LdHHLPtr,
            0x67 => Opcode::LdHA,
            0x68 => Opcode::LdLB,
            0x69 => Opcode::LdLC,
            0x6A => Opcode::LdLD,
            0x6B => Opcode::LdLE,
            0x6C => Opcode::LdLH,
            0x6D => Opcode::LdLL,
            0x6E => Opcode::LdLHLPtr,
            0x6F => Opcode::LdLA,
            0x70 => Opcode::LdHLPtrB,
            0x71 => Opcode::LdHLPtrC,
            0x72 => Opcode::LdHLPtrD,
            0x73 => Opcode::LdHLPtrE,
            0x74 => Opcode::LdHLPtrH,
            0x75 => Opcode::LdHLPtrL,
            0x76 => Opcode::Halt,
            0x77 => Opcode::LdHLPtrA,
            0x78 => Opcode::LdAB,
            0x79 => Opcode::LdAC,
            0x7A => Opcode::LdAD,
            0x7B => Opcode::LdAE,
            0x7C => Opcode::LdAH,
            0x7D => Opcode::LdAL,
            0x7E => Opcode::LdAHLPtr,
            0x7F => Opcode::LdAA,
            0x80 => Opcode::AddAB,
            0x81 => Opcode::AddAC,
            0x82 => Opcode::AddAD,
            0x83 => Opcode::AddAE,
            0x84 => Opcode::AddAH,
            0x85 => Opcode::AddAL,
            0x86 => Opcode::AddAHLPtr,
            0x87 => Opcode::AddAA,
            0x88 => Opcode::AdcAB,
            0x89 => Opcode::AdcAC,
            0x8A => Opcode::AdcAD,
            0x8B => Opcode::AdcAE,
            0x8C => Opcode::AdcAH,
            0x8D => Opcode::AdcAL,
            0x8E => Opcode::AdcAHLPtr,
            0x8F => Opcode::AdcAA,
            0x90 => Opcode::SubB,
            0x91 => Opcode::SubC,
            0x92 => Opcode::SubD,
            0x93 => Opcode::SubE,
            0x94 => Opcode::SubH,
            0x95 => Opcode::SubL,
            0x96 => Opcode::SubHLPtr,
            0x97 => Opcode::SubA,
            0x98 => Opcode::SbcAB,
            0x99 => Opcode::SbcAC,
            0x9A => Opcode::SbcAD,
            0x9B => Opcode::SbcAE,
            0x9C => Opcode::SbcAH,
            0x9D => Opcode::SbcAL,
            0x9E => Opcode::SbcAHLPtr,
            0x9F => Opcode::SbcAA,
            0xA0 => Opcode::AndB,
            0xA1 => Opcode::AndC,
            0xA2 => Opcode::AndD,
            0xA3 => Opcode::AndE,
            0xA4 => Opcode::AndH,
            0xA5 => Opcode::AndL,
            0xA6 => Opcode::AndHLPtr,
            0xA7 => Opcode::AndA,
            0xA8 => Opcode::XorB,
            0xA9 => Opcode::XorC,
            0xAA => Opcode::XorD,
            0xAB => Opcode::XorE,
            0xAC => Opcode::XorH,
            0xAD => Opcode::XorL,
            0xAE => Opcode::XorHLPtr,
            0xAF => Opcode::XorA,
            0xB0 => Opcode::OrB,
            0xB1 => Opcode::OrC,
            0xB2 => Opcode::OrD,
            0xB3 => Opcode::OrE,
            0xB4 => Opcode::OrH,
            0xB5 => Opcode::OrL,
            0xB6 => Opcode::OrHLPtr,
            0xB7 => Opcode::OrA,
            0xB8 => Opcode::CpB,
            0xB9 => Opcode::CpC,
            0xBA => Opcode::CpD,
            0xBB => Opcode::CpE,
            0xBC => Opcode::CpH,
            0xBD => Opcode::CpL,
            0xBE => Opcode::CpHLPtr,
            0xBF => Opcode::CpA,
            0xC0 => Opcode::RetNZ,
            0xC1 => Opcode::PopBC,
            0xC2 => Opcode::JpNZNN,
            0xC3 => Opcode::JpNN,
            0xC4 => Opcode::CallNZNN,
            0xC5 => Opcode::PushBC,
            0xC6 => Opcode::AddAN,
            0xC7 => Opcode::Rst00,
            0xC8 => Opcode::RetZ,
            0xC9 => Opcode::Ret,
            0xCA => Opcode::JpZNN,
            0xCB => Opcode::CbPrefix,
            0xCC => Opcode::CallZNN,
            0xCD => Opcode::CallNN,
            0xCE => Opcode::AdcAN,
            0xCF => Opcode::Rst08,
            0xD0 => Opcode::RetNC,
            0xD1 => Opcode::PopDE,
            0xD2 => Opcode::JpNCNN,
            0xD3 => Opcode::IllegalD3,
            0xD4 => Opcode::CallNCNN,
            0xD5 => Opcode::PushDE,
            0xD6 => Opcode::SubN,
            0xD7 => Opcode::Rst10,
            0xD8 => Opcode::RetC,
            0xD9 => Opcode::Reti,
            0xDA => Opcode::JpCNN,
            0xDB => Opcode::IllegalDB,
            0xDC => Opcode::CallCNN,
            0xDD => Opcode::IllegalDD,
            0xDE => Opcode::SbcAN,
            0xDF => Opcode::Rst18,
            0xE0 => Opcode::LdhNA,
            0xE1 => Opcode::PopHL,
            0xE2 => Opcode::LdhCA,
            0xE3 => Opcode::IllegalE3,
            0xE4 => Opcode::IllegalE4,
            0xE5 => Opcode::PushHL,
            0xE6 => Opcode::AndN,
            0xE7 => Opcode::Rst20,
            0xE8 => Opcode::AddSPN,
            0xE9 => Opcode::JpHL,
            0xEA => Opcode::LdNNPtrA,
            0xEB => Opcode::IllegalEB,
            0xEC => Opcode::IllegalEC,
            0xED => Opcode::IllegalED,
            0xEE => Opcode::XorN,
            0xEF => Opcode::Rst28,
            0xF0 => Opcode::LdhAN,
            0xF1 => Opcode::PopAF,
            0xF2 => Opcode::LdhAC,
            0xF3 => Opcode::Di,
            0xF4 => Opcode::IllegalF4,
            0xF5 => Opcode::PushAF,
            0xF6 => Opcode::OrN,
            0xF7 => Opcode::Rst30,
            0xF8 => Opcode::LdHLSPN,
            0xF9 => Opcode::LdSPHL,
            0xFA => Opcode::LdANNPtr,
            0xFB => Opcode::Ei,
            0xFC => Opcode::IllegalFC,
            0xFD => Opcode::IllegalFD,
            0xFE => Opcode::CpN,
            _ => Opcode::Rst38,
        }
    }

    /// The assembly mnemonic, for display.
    pub fn mnemonic(&self) -> &'static str {
        match self {
            Opcode::Nop => "NOP",
            Opcode::LdBCNN => "LD BC, nn",
            Opcode::LdBCPtrA => "LD (BC), A",
            Opcode::IncBC => "INC BC",
            Opcode::IncB => "INC B",
            Opcode::DecB => "DEC B",
            Opcode::LdBN => "LD B, n",
            Opcode::Rlca => "RLCA",
            Opcode::LdNNSP => "LD (nn), SP",
            Opcode::AddHLBC => "ADD HL, BC",
            Opcode::LdABCPtr => "LD A, (BC)",
            Opcode::DecBC => "DEC BC",
            Opcode::IncC => "INC C",
            Opcode::DecC => "DEC C",
            Opcode::LdCN => "LD C, n",
            Opcode::Rrca => "RRCA",
            Opcode::Stop => "STOP",
            Opcode::LdDENN => "LD DE, nn",
            Opcode::LdDEPtrA => "LD (DE), A",
            Opcode::IncDE => "INC DE",
            Opcode::IncD => "INC D",
            Opcode::DecD => "DEC D",
            Opcode::LdDN => "LD D, n",
            Opcode::Rla => "RLA",
            Opcode::JrN => "JR e",
            Opcode::AddHLDE => "ADD HL, DE",
            Opcode::LdADEPtr => "LD A, (DE)",
            Opcode::DecDE => "DEC DE",
            Opcode::IncE => "INC E",
            Opcode::DecE => "DEC E",
            Opcode::LdEN => "LD E, n",
            Opcode::Rra => "RRA",
            Opcode::JrNZN => "JR NZ, e",
            Opcode::LdHLNN => "LD HL, nn",
            Opcode::LdHLIncA => "LD (HL+), A",
            Opcode::IncHL => "INC HL",
            Opcode::IncH => "INC H",
            Opcode::DecH => "DEC H",
            Opcode::LdHN => "LD H, n",
            Opcode::Daa => "DAA",
            Opcode::JrZN => "JR Z, e",
            Opcode::AddHLHL => "ADD HL, HL",
            Opcode::LdAHLInc => "LD A, (HL+)",
            Opcode::DecHL => "DEC HL",
            Opcode::IncL => "INC L",
            Opcode::DecL => "DEC L",
            Opcode::LdLN => "LD L, n",
            Opcode::Cpl => "CPL",
            Opcode::JrNCN => "JR NC, e",
            Opcode::LdSPNN => "LD SP, nn",
            Opcode::LdHLDecA => "LD (HL-), A",
            Opcode::IncSP => "INC SP",
            Opcode::IncHLPtr => "INC (HL)",
            Opcode::DecHLPtr => "DEC (HL)",
            Opcode::LdHLPtrN => "LD (HL), n",
            Opcode::Scf => "SCF",
            Opcode::JrCN => "JR C, e",
            Opcode::AddHLSP => "ADD HL, SP",
            Opcode::LdAHLDec => "LD A, (HL-)",
            Opcode::DecSP => "DEC SP",
            Opcode::IncA => "INC A",
            Opcode::DecA => "DEC A",
            Opcode::LdAN => "LD A, n",
            Opcode::Ccf => "CCF",
            Opcode::LdBB => "LD B, B",
            Opcode::LdBC => "LD B, C",
            Opcode::LdBD => "LD B, D",
            Opcode::LdBE => "LD B, E",
            Opcode::LdBH => "LD B, H",
            Opcode::LdBL => "LD B, L",
            Opcode::LdBHLPtr => "LD B, (HL)",
            Opcode::LdBA => "LD B, A",
            Opcode::LdCB => "LD C, B",
            Opcode::LdCC => "LD C, C",
            Opcode::LdCD => "LD C, D",
            Opcode::LdCE => "LD C, E",
            Opcode::LdCH => "LD C, H",
            Opcode::LdCL => "LD C, L",
            Opcode::LdCHLPtr => "LD C, (HL)",
            Opcode::LdCA => "LD C, A",
            Opcode::LdDB => "LD D, B",
            Opcode::LdDC => "LD D, C",
            Opcode::LdDD => "LD D, D",
            Opcode::LdDE => "LD D, E",
            Opcode::LdDH => "LD D, H",
            Opcode::LdDL => "LD D, L",
            Opcode::LdDHLPtr => "LD D, (HL)",
            Opcode::LdDA => "LD D, A",
            Opcode::LdEB => "LD E, B",
            Opcode::LdEC => "LD E, C",
            Opcode::LdED => "LD E, D",
            Opcode::LdEE => "LD E, E",
            Opcode::LdEH => "LD E, H",
            Opcode::LdEL => "LD E, L",
            Opcode::LdEHLPtr => "LD E, (HL)",
            Opcode::LdEA => "LD E, A",
            Opcode::LdHB => "LD H, B",
            Opcode::LdHC => "LD H, C",
            Opcode::LdHD => "LD H, D",
            Opcode::LdHE => "LD H, E",
            Opcode::LdHH => "LD H, H",
            Opcode::LdHL => "LD H, L",
            Opcode::LdHHLPtr => "LD H, (HL)",
            Opcode::LdHA => "LD H, A",
            Opcode::LdLB => "LD L, B",
            Opcode::LdLC => "LD L, C",
            Opcode::LdLD => "LD L, D",
            Opcode::LdLE => "LD L, E",
            Opcode::LdLH => "LD L, H",
            Opcode::LdLL => "LD L, L",
            Opcode::LdLHLPtr => "LD L, (HL)",
            Opcode::LdLA => "LD L, A",
            Opcode::LdHLPtrB => "LD (HL), B",
            Opcode::LdHLPtrC => "LD (HL), C",
            Opcode::LdHLPtrD => "LD (HL), D",
            Opcode::LdHLPtrE => "LD (HL), E",
            Opcode::LdHLPtrH => "LD (HL), H",
            Opcode::LdHLPtrL => "LD (HL), L",
            Opcode::Halt => "HALT",
            Opcode::LdHLPtrA => "LD (HL), A",
            Opcode::LdAB => "LD A, B",
            Opcode::LdAC => "LD A, C",
            Opcode::LdAD => "LD A, D",
            Opcode::LdAE => "LD A, E",
            Opcode::LdAH => "LD A, H",
            Opcode::LdAL => "LD A, L",
            Opcode::LdAHLPtr => "LD A, (HL)",
            Opcode::LdAA => "LD A, A",
            Opcode::AddAB => "ADD A, B",
            Opcode::AddAC => "ADD A, C",
            Opcode::AddAD => "ADD A, D",
            Opcode::AddAE => "ADD A, E",
            Opcode::AddAH => "ADD A, H",
            Opcode::AddAL => "ADD A, L",
            Opcode::AddAHLPtr => "ADD A, (HL)",
            Opcode::AddAA => "ADD A, A",
            Opcode::AdcAB => "ADC A, B",
            Opcode::AdcAC => "ADC A, C",
            Opcode::AdcAD => "ADC A, D",
            Opcode::AdcAE => "ADC A, E",
            Opcode::AdcAH => "ADC A, H",
            Opcode::AdcAL => "ADC A, L",
            Opcode::AdcAHLPtr => "ADC A, (HL)",
            Opcode::AdcAA => "ADC A, A",
            Opcode::SubB => "SUB B",
            Opcode::SubC => "SUB C",
            Opcode::SubD => "SUB D",
            Opcode::SubE => "SUB E",
            Opcode::SubH => "SUB H",
            Opcode::SubL => "SUB L",
            Opcode::SubHLPtr => "SUB (HL)",
            Opcode::SubA => "SUB A",
            Opcode::SbcAB => "SBC A, B",
            Opcode::SbcAC => "SBC A, C",
            Opcode::SbcAD => "SBC A, D",
            Opcode::SbcAE => "SBC A, E",
            Opcode::SbcAH => "SBC A, H",
            Opcode::SbcAL => "SBC A, L",
            Opcode::SbcAHLPtr => "SBC A, (HL)",
            Opcode::SbcAA => "SBC A, A",
            Opcode::AndB => "AND B",
            Opcode::AndC => "AND C",
            Opcode::AndD => "AND D",
            Opcode::AndE => "AND E",
            Opcode::AndH => "AND H",
            Opcode::AndL => "AND L",
            Opcode::AndHLPtr => "AND (HL)",
            Opcode::AndA => "AND A",
            Opcode::XorB => "XOR B",
            Opcode::XorC => "XOR C",
            Opcode::XorD => "XOR D",
            Opcode::XorE => "XOR E",
            Opcode::XorH => "XOR H",
            Opcode::XorL => "XOR L",
            Opcode::XorHLPtr => "XOR (HL)",
            Opcode::XorA => "XOR A",
            Opcode::OrB => "OR B",
            Opcode::OrC => "OR C",
            Opcode::OrD => "OR D",
            Opcode::OrE => "OR E",
            Opcode::OrH => "OR H",
            Opcode::OrL => "OR L",
            Opcode::OrHLPtr => "OR (HL)",
            Opcode::OrA => "OR A",
            Opcode::CpB => "CP B",
            Opcode::CpC => "CP C",
            Opcode::CpD => "CP D",
            Opcode::CpE => "CP E",
            Opcode::CpH => "CP H",
            Opcode::CpL => "CP L",
            Opcode::CpHLPtr => "CP (HL)",
            Opcode::CpA => "CP A",
            Opcode::RetNZ => "RET NZ",
            Opcode::PopBC => "POP BC",
            Opcode::JpNZNN => "JP NZ, nn",
            Opcode::JpNN => "JP nn",
            Opcode::CallNZNN => "CALL NZ, nn",
            Opcode::PushBC => "PUSH BC",
            Opcode::AddAN => "ADD A, n",
            Opcode::Rst00 => "RST 00H",
            Opcode::RetZ => "RET Z",
            Opcode::Ret => "RET",
            Opcode::JpZNN => "JP Z, nn",
            Opcode::CbPrefix => "CB",
            Opcode::CallZNN => "CALL Z, nn",
            Opcode::CallNN => "CALL nn",
            Opcode::AdcAN => "ADC A, n",
            Opcode::Rst08 => "RST 08H",
            Opcode::RetNC => "RET NC",
            Opcode::PopDE => "POP DE",
            Opcode::JpNCNN => "JP NC, nn",
            Opcode::IllegalD3 => "INVALID",
            Opcode::CallNCNN => "CALL NC, nn",
            Opcode::PushDE => "PUSH DE",
            Opcode::SubN => "SUB n",
            Opcode::Rst10 => "RST 10H",
            Opcode::RetC => "RET C",
            Opcode::Reti => "RETI",
            Opcode::JpCNN => "JP C, nn",
            Opcode::IllegalDB => "INVALID",
            Opcode::CallCNN => "CALL C, nn",
            Opcode::IllegalDD => "INVALID",
            Opcode::SbcAN => "SBC A, n",
            Opcode::Rst18 => "RST 18H",
            Opcode::LdhNA => "LDH (n), A",
            Opcode::PopHL => "POP HL",
            Opcode::LdhCA => "LD (C), A",
            Opcode::IllegalE3 => "INVALID",
            Opcode::IllegalE4 => "INVALID",
            Opcode::PushHL => "PUSH HL",
            Opcode::AndN => "AND n",
            Opcode::Rst20 => "RST 20H",
            Opcode::AddSPN => "ADD SP, e",
            Opcode::JpHL => "JP HL",
            Opcode::LdNNPtrA => "LD (nn), A",
            Opcode::IllegalEB => "INVALID",
            Opcode::IllegalEC => "INVALID",
            Opcode::IllegalED => "INVALID",
            Opcode::XorN => "XOR n",
            Opcode::Rst28 => "RST 28H",
            Opcode::LdhAN => "LDH A, (n)",
            Opcode::PopAF => "POP AF",
            Opcode::LdhAC => "LD A, (C)",
            Opcode::Di => "DI",
            Opcode::IllegalF4 => "INVALID",
            Opcode::PushAF => "PUSH AF",
            Opcode::OrN => "OR n",
            Opcode::Rst30 => "RST 30H",
            Opcode::LdHLSPN => "LD HL, SP+e",
            Opcode::LdSPHL => "LD SP, HL",
            Opcode::LdANNPtr => "LD A, (nn)",
            Opcode::Ei => "EI",
            Opcode::IllegalFC => "INVALID",
            Opcode::IllegalFD => "INVALID",
            Opcode::CpN => "CP n",
            Opcode::Rst38 => "RST 38H",
        }
    }

    /// The ticks the instruction takes, its branch taken where it has one.
    pub fn timing(&self) -> (r: u8)
        ensures
            r == base_cycles(self.spec_byte(), true),
    {
        base_cycle_count(self.byte(), true) as u8
    }
}

/// The bit-prefix instruction table, one variant per byte after the prefix, in byte order.
#[derive(Clone, Copy, Debug, PartialEq, Eq, Structural)]
pub enum ExtendedOpcode {
    RlcB,
    RlcC,
    RlcD,
    RlcE,
    RlcH,
    RlcL,
    RlcHLPtr,
    RlcA,
    RrcB,
    RrcC,
    RrcD,
    RrcE,
    RrcH,
    RrcL,
    RrcHLPtr,
    RrcA,
    RlB,
    RlC,
    RlD,
    RlE,
    RlH,
    RlL,
    RlHLPtr,
    RlA,
    RrB,
    RrC,
    RrD,
    RrE,
    RrH,
    RrL,
    RrHLPtr,
    RrA,
    SlaB,
    SlaC,
    SlaD,
    SlaE,
    SlaH,
    SlaL,
    SlaHLPtr,
    SlaA,
    SraB,
    SraC,
    SraD,
    SraE,
    SraH,
    SraL,
    SraHLPtr,
    SraA,
    SwapB,
    SwapC,
    SwapD,
    SwapE,
    SwapH,
    SwapL,
    SwapHLPtr,
    SwapA,
    SrlB,
    SrlC,
    SrlD,
    SrlE,
    SrlH,
    SrlL,
    SrlHLPtr,
    SrlA,
    Bit0B,
    Bit0C,
    Bit0D,
    Bit0E,
    Bit0H,
    Bit0L,
    Bit0HLPtr,
    Bit0A,
    Bit1B,
    Bit1C,
    Bit1D,
    Bit1E,
    Bit1H,
    Bit1L,
    Bit1HLPtr,
    Bit1A,
    Bit2B,
    Bit2C,
    Bit2D,
    Bit2E,
    Bit2H,
    Bit2L,
    Bit2HLPtr,
    Bit2A,
    Bit3B,
    Bit3C,
    Bit3D,
    Bit3E,
    Bit3H,
    Bit3L,
    Bit3HLPtr,
    Bit3A,
    Bit4B,
    Bit4C,
    Bit4D,
    Bit4E,
    Bit4H,
    Bit4L,
    Bit4HLPtr,
    Bit4A,
    Bit5B,
    Bit5C,
    Bit5D,
    Bit5E,
    Bit5H,
    Bit5L,
    Bit5HLPtr,
    Bit5A,
    Bit6B,
    Bit6C,
    Bit6D,
    Bit6E,
    Bit6H,
    Bit6L,
    Bit6HLPtr,
    Bit6A,
    Bit7B,
    Bit7C,
    Bit7D,
    Bit7E,
    Bit7H,
    Bit7L,
    Bit7HLPtr,
    Bit7A,
    Res0B,
    Res0C,
    Res0D,
    Res0E,
    Res0H,
    Res0L,
    Res0HLPtr,
    Res0A,
    Res1B,
    Res1C,
    Res1D,
    Res1E,
    Res1H,
    Res1L,
    Res1HLPtr,
    Res1A,
    Res2B,
    Res2C,
    Res2D,
    Res2E,
    Res2H,
    Res2L,
    Res2HLPtr,
    Res2A,
    Res3B,
    Res3C,
    Res3D,
    Res3E,
    Res3H,
    Res3L,
    Res3HLPtr,
    Res3A,
    Res4B,
    Res4C,
    Res4D,
    Res4E,
    Res4H,
    Res4L,
    Res4HLPtr,
    Res4A,
    Res5B,
    Res5C,
    Res5D,
    Res5E,
    Res5H,
    Res5L,
    Res5HLPtr,
    Res5A,
    Res6B,
    Res6C,
    Res6D,
    Res6E,
    Res6H,
    Res6L,
    Res6HLPtr,
    Res6A,
    Res7B,
    Res7C,
    Res7D,
    Res7E,
    Res7H,
    Res7L,
    Res7HLPtr,
    Res7A,
    Set0B,
    Set0C,
    Set0D,
    Set0E,
    Set0H,
    Set0L,
    Set0HLPtr,
    Set0A,
    Set1B,
    Set1C,
    Set1D,
    Set1E,
    Set1H,
    Set1L,
    Set1HLPtr,
    Set1A,
    Set2B,
    Set2C,
    Set2D,
    Set2E,
    Set2H,
    Set2L,
    Set2HLPtr,
    Set2A,
    Set3B,
    Set3C,
    Set3D,
    Set3E,
    Set3H,
    Set3L,
    Set3HLPtr,
    Set3A,
    Set4B,
    Set4C,
    Set4D,
    Set4E,
    Set4H,
    Set4L,
    Set4HLPtr,
    Set4A,
    Set5B,
    Set5C,
    Set5D,
    Set5E,
    Set5H,
    Set5L,
    Set5HLPtr,
    Set5A,
    Set6B,
    Set6C,
    Set6D,
    Set6E,
    Set6H,
    Set6L,
    Set6HLPtr,
    Set6A,
    Set7B,
    Set7C,
    Set7D,
    Set7E,
    Set7H,
    Set7L,
    Set7HLPtr,
    Set7A,
}

impl ExtendedOpcode {
    /// The opcode byte.
    pub open spec fn spec_byte(self) -> u8 {
        match self {
            ExtendedOpcode::RlcB => 0x00,
            ExtendedOpcode::RlcC => 0x01,
            ExtendedOpcode::RlcD => 0x02,
            ExtendedOpcode::RlcE => 0x03,
            ExtendedOpcode::RlcH => 0x04,
            ExtendedOpcode::RlcL => 0x05,
            ExtendedOpcode::RlcHLPtr => 0x06,
            ExtendedOpcode::RlcA => 0x07,
            ExtendedOpcode::RrcB => 0x08,
            ExtendedOpcode::RrcC => 0x09,
            ExtendedOpcode::RrcD => 0x0A,
            ExtendedOpcode::RrcE => 0x0B,
            ExtendedOpcode::RrcH => 0x0C,
            ExtendedOpcode::RrcL => 0x0D,
            ExtendedOpcode::RrcHLPtr => 0x0E,
            ExtendedOpcode::RrcA => 0x0F,
            ExtendedOpcode::RlB => 0x10,
            ExtendedOpcode::RlC => 0x11,
            ExtendedOpcode::RlD => 0x12,
            ExtendedOpcode::RlE => 0x13,
            ExtendedOpcode::RlH => 0x14,
            ExtendedOpcode::RlL => 0x15,
            ExtendedOpcode::RlHLPtr => 0x16,
            ExtendedOpcode::RlA => 0x17,
            ExtendedOpcode::RrB => 0x18,
            ExtendedOpcode::RrC => 0x19,
            ExtendedOpcode::RrD => 0x1A,
            ExtendedOpcode::RrE => 0x1B,
            ExtendedOpcode::RrH => 0x1C,
            ExtendedOpcode::RrL => 0x1D,
            ExtendedOpcode::RrHLPtr => 0x1E,
            ExtendedOpcode::RrA => 0x1F,
            ExtendedOpcode::SlaB => 0x20,
            ExtendedOpcode::SlaC => 0x21,
            ExtendedOpcode::SlaD => 0x22,
            ExtendedOpcode::SlaE => 0x23,
            ExtendedOpcode::SlaH => 0x24,
            ExtendedOpcode::SlaL => 0x25,
            ExtendedOpcode::SlaHLPtr => 0x26,
            ExtendedOpcode::SlaA => 0x27,
            ExtendedOpcode::SraB => 0x28,
            ExtendedOpcode::SraC => 0x29,
            ExtendedOpcode::SraD => 0x2A,
            ExtendedOpcode::SraE => 0x2B,
            ExtendedOpcode::SraH => 0x2C,
            ExtendedOpcode::SraL => 0x2D,
            ExtendedOpcode::SraHLPtr => 0x2E,
            ExtendedOpcode::SraA => 0x2F,
            ExtendedOpcode::SwapB => 0x30,
            ExtendedOpcode::SwapC => 0x31,
            ExtendedOpcode::SwapD => 0x32,
            ExtendedOpcode::SwapE => 0x33,
            ExtendedOpcode::SwapH => 0x34,
            ExtendedOpcode::SwapL => 0x35,
            ExtendedOpcode::SwapHLPtr => 0x36,
            ExtendedOpcode::SwapA => 0x37,
            ExtendedOpcode::SrlB => 0x38,
            ExtendedOpcode::SrlC => 0x39,
            ExtendedOpcode::SrlD => 0x3A,
            ExtendedOpcode::SrlE => 0x3B,
            ExtendedOpcode::SrlH => 0x3C,
            ExtendedOpcode::SrlL => 0x3D,
            ExtendedOpcode::SrlHLPtr => 0x3E,
            ExtendedOpcode::SrlA => 0x3F,
            ExtendedOpcode::Bit0B => 0x40,
            ExtendedOpcode::Bit0C => 0x41,
            ExtendedOpcode::Bit0D => 0x42,
            ExtendedOpcode::Bit0E => 0x43,
            ExtendedOpcode::Bit0H => 0x44,
            ExtendedOpcode::Bit0L => 0x45,
            ExtendedOpcode::Bit0HLPtr => 0x46,
            ExtendedOpcode::Bit0A => 0x47,
            ExtendedOpcode::Bit1B => 0x48,
            ExtendedOpcode::Bit1C => 0x49,
            ExtendedOpcode::Bit1D => 0x4A,
            ExtendedOpcode::Bit1E => 0x4B,
            ExtendedOpcode::Bit1H => 0x4C,
            ExtendedOpcode::Bit1L => 0x4D,
            ExtendedOpcode::Bit1HLPtr => 0x4E,
            ExtendedOpcode::Bit1A => 0x4F,
            ExtendedOpcode::Bit2B => 0x50,
            ExtendedOpcode::Bit2C => 0x51,
            ExtendedOpcode::Bit2D => 0x52,
            ExtendedOpcode::Bit2E => 0x53,
            ExtendedOpcode::Bit2H => 0x54,
            ExtendedOpcode::Bit2L => 0x55,
            ExtendedOpcode::Bit2HLPtr => 0x56,
            ExtendedOpcode::Bit2A => 0x57,
            ExtendedOpcode::Bit3B => 0x58,
            ExtendedOpcode::Bit3C => 0x59,
            ExtendedOpcode::Bit3D => 0x5A,
            ExtendedOpcode::Bit3E => 0x5B,
            ExtendedOpcode::Bit3H => 0x5C,
            ExtendedOpcode::Bit3L => 0x5D,
            ExtendedOpcode::Bit3HLPtr => 0x5E,
            ExtendedOpcode::Bit3A => 0x5F,
            ExtendedOpcode::Bit4B => 0x60,
            ExtendedOpcode::Bit4C => 0x61,
            ExtendedOpcode::Bit4D => 0x62,
            ExtendedOpcode::Bit4E => 0x63,
            ExtendedOpcode::Bit4H => 0x64,
            ExtendedOpcode::Bit4L => 0x65,
            ExtendedOpcode::Bit4HLPtr => 0x66,
            ExtendedOpcode::Bit4A => 0x67,
            ExtendedOpcode::Bit5B => 0x68,
            ExtendedOpcode::Bit5C => 0x69,
            ExtendedOpcode::Bit5D => 0x6A,
            ExtendedOpcode::Bit5E => 0x6B,
            ExtendedOpcode::Bit5H => 0x6C,
            ExtendedOpcode::Bit5L => 0x6D,
            ExtendedOpcode::Bit5HLPtr => 0x6E,
            ExtendedOpcode::Bit5A => 0x6F,
            ExtendedOpcode::Bit6B => 0x70,
            ExtendedOpcode::Bit6C => 0x71,
            ExtendedOpcode::Bit6D => 0x72,
            ExtendedOpcode::Bit6E => 0x73,
            ExtendedOpcode::Bit6H => 0x74,
            ExtendedOpcode::Bit6L => 0x75,
            ExtendedOpcode::Bit6HLPtr => 0x76,
            ExtendedOpcode::Bit6A => 0x77,
            ExtendedOpcode::Bit7B => 0x78,
            ExtendedOpcode::Bit7C => 0x79,
            ExtendedOpcode::Bit7D => 0x7A,
            ExtendedOpcode::Bit7E => 0x7B,
            ExtendedOpcode::Bit7H => 0x7C,
            ExtendedOpcode::Bit7L => 0x7D,
            ExtendedOpcode::Bit7HLPtr => 0x7E,
            ExtendedOpcode::Bit7A => 0x7F,
            ExtendedOpcode::Res0B => 0x80,
            ExtendedOpcode::Res0C => 0x81,
            ExtendedOpcode::Res0D => 0x82,
            ExtendedOpcode::Res0E => 0x83,
            ExtendedOpcode::Res0H => 0x84,
            ExtendedOpcode::Res0L => 0x85,
            ExtendedOpcode::Res0HLPtr => 0x86,
            ExtendedOpcode::Res0A => 0x87,
            ExtendedOpcode::Res1B => 0x88,
            ExtendedOpcode::Res1C => 0x89,
            ExtendedOpcode::Res1D => 0x8A,
            ExtendedOpcode::Res1E => 0x8B,
            ExtendedOpcode::Res1H => 0x8C,
            ExtendedOpcode::Res1L => 0x8D,
            ExtendedOpcode::Res1HLPtr => 0x8E,
            ExtendedOpcode::Res1A => 0x8F,
            ExtendedOpcode::Res2B => 0x90,
            ExtendedOpcode::Res2C => 0x91,
            ExtendedOpcode::Res2D => 0x92,
            ExtendedOpcode::Res2E => 0x93,
            ExtendedOpcode::Res2H => 0x94,
            ExtendedOpcode::Res2L => 0x95,
            ExtendedOpcode::Res2HLPtr => 0x96,
            ExtendedOpcode::Res2A => 0x97,
            ExtendedOpcode::Res3B => 0x98,
            ExtendedOpcode::Res3C => 0x99,
            ExtendedOpcode::Res3D => 0x9A,
            ExtendedOpcode::Res3E => 0x9B,
            ExtendedOpcode::Res3H => 0x9C,
            ExtendedOpcode::Res3L => 0x9D,
            ExtendedOpcode::Res3HLPtr => 0x9E,
            ExtendedOpcode::Res3A => 0x9F,
            ExtendedOpcode::Res4B => 0xA0,
            ExtendedOpcode::Res4C => 0xA1,
            ExtendedOpcode::Res4D => 0xA2,
            ExtendedOpcode::Res4E => 0xA3,
            ExtendedOpcode::Res4H => 0xA4,
            ExtendedOpcode::Res4L => 0xA5,
            ExtendedOpcode::Res4HLPtr => 0xA6,
            ExtendedOpcode::Res4A => 0xA7,
            ExtendedOpcode::Res5B => 0xA8,
            ExtendedOpcode::Res5C => 0xA9,
            ExtendedOpcode::Res5D => 0xAA,
            ExtendedOpcode::Res5E => 0xAB,
            ExtendedOpcode::Res5H => 0xAC,
            ExtendedOpcode::Res5L => 0xAD,
            ExtendedOpcode::Res5HLPtr => 0xAE,
            ExtendedOpcode::Res5A => 0xAF,
            ExtendedOpcode::Res6B => 0xB0,
            ExtendedOpcode::Res6C => 0xB1,
            ExtendedOpcode::Res6D => 0xB2,
            ExtendedOpcode::Res6E => 0xB3,
            ExtendedOpcode::Res6H => 0xB4,
            ExtendedOpcode::Res6L => 0xB5,
            ExtendedOpcode::Res6HLPtr => 0xB6,
            ExtendedOpcode::Res6A => 0xB7,
            ExtendedOpcode::Res7B => 0xB8,
            ExtendedOpcode::Res7C => 0xB9,
            ExtendedOpcode::Res7D => 0xBA,
            ExtendedOpcode::Res7E => 0xBB,
            ExtendedOpcode::Res7H => 0xBC,
            ExtendedOpcode::Res7L => 0xBD,
            ExtendedOpcode::Res7HLPtr => 0xBE,
            ExtendedOpcode::Res7A => 0xBF,
            ExtendedOpcode::Set0B => 0xC0,
            ExtendedOpcode::Set0C => 0xC1,
            ExtendedOpcode::Set0D => 0xC2,
            ExtendedOpcode::Set0E => 0xC3,
            ExtendedOpcode::Set0H => 0xC4,
            ExtendedOpcode::Set0L => 0xC5,
            ExtendedOpcode::Set0HLPtr => 0xC6,
            ExtendedOpcode::Set0A => 0xC7,
            ExtendedOpcode::Set1B => 0xC8,
            ExtendedOpcode::Set1C => 0xC9,
            ExtendedOpcode::Set1D => 0xCA,
            ExtendedOpcode::Set1E => 0xCB,
            ExtendedOpcode::Set1H => 0xCC,
            ExtendedOpcode::Set1L => 0xCD,
            ExtendedOpcode::Set1HLPtr => 0xCE,
            ExtendedOpcode::Set1A => 0xCF,
            ExtendedOpcode::Set2B => 0xD0,
            ExtendedOpcode::Set2C => 0xD1,
            ExtendedOpcode::Set2D => 0xD2,
            ExtendedOpcode::Set2E => 0xD3,
            ExtendedOpcode::Set2H => 0xD4,
            ExtendedOpcode::Set2L => 0xD5,
            ExtendedOpcode::Set2HLPtr => 0xD6,
            ExtendedOpcode::Set2A => 0xD7,
            ExtendedOpcode::Set3B => 0xD8,
            ExtendedOpcode::Set3C => 0xD9,
            ExtendedOpcode::Set3D => 0xDA,
            ExtendedOpcode::Set3E => 0xDB,
            ExtendedOpcode::Set3H => 0xDC,
            ExtendedOpcode::Set3L => 0xDD,
            ExtendedOpcode::Set3HLPtr => 0xDE,
            ExtendedOpcode::Set3A => 0xDF,
            ExtendedOpcode::Set4B => 0xE0,
            ExtendedOpcode::Set4C => 0xE1,
            ExtendedOpcode::Set4D => 0xE2,
            ExtendedOpcode::Set4E => 0xE3,
            ExtendedOpcode::Set4H => 0xE4,
            ExtendedOpcode::Set4L => 0xE5,
            ExtendedOpcode::Set4HLPtr => 0xE6,
            ExtendedOpcode::Set4A => 0xE7,
            ExtendedOpcode::Set5B => 0xE8,
            ExtendedOpcode::Set5C => 0xE9,
            ExtendedOpcode::Set5D => 0xEA,
            ExtendedOpcode::Set5E => 0xEB,
            ExtendedOpcode::Set5H => 0xEC,
            ExtendedOpcode::Set5L => 0xED,
            ExtendedOpcode::Set5HLPtr => 0xEE,
            ExtendedOpcode::Set5A => 0xEF,
            ExtendedOpcode::Set6B => 0xF0,
            ExtendedOpcode::Set6C => 0xF1,
            ExtendedOpcode::Set6D => 0xF2,
            ExtendedOpcode::Set6E => 0xF3,
            ExtendedOpcode::Set6H => 0xF4,
            ExtendedOpcode::Set6L => 0xF5,
            ExtendedOpcode::Set6HLPtr => 0xF6,
            ExtendedOpcode::Set6A => 0xF7,
            ExtendedOpcode::Set7B => 0xF8,
            ExtendedOpcode::Set7C => 0xF9,
            ExtendedOpcode::Set7D => 0xFA,
            ExtendedOpcode::Set7E => 0xFB,
            ExtendedOpcode::Set7H => 0xFC,
            ExtendedOpcode::Set7L => 0xFD,
            ExtendedOpcode::Set7HLPtr => 0xFE,
            ExtendedOpcode::Set7A => 0xFF,
        }
    }

    pub fn byte(&self) -> (r: u8)
        ensures
            r == self.spec_byte(),
    {
        match self {
            ExtendedOpcode::RlcB => 0x00,
            ExtendedOpcode::RlcC => 0x01,
            ExtendedOpcode::RlcD => 0x02,
            ExtendedOpcode::RlcE => 0x03,
            ExtendedOpcode::RlcH => 0x04,
            ExtendedOpcode::RlcL => 0x05,
            ExtendedOpcode::RlcHLPtr => 0x06,
            ExtendedOpcode::RlcA => 0x07,
            ExtendedOpcode::RrcB => 0x08,
            ExtendedOpcode::RrcC => 0x09,
            ExtendedOpcode::RrcD => 0x0A,
            ExtendedOpcode::RrcE => 0x0B,
            ExtendedOpcode::RrcH => 0x0C,
            ExtendedOpcode::RrcL => 0x0D,
            ExtendedOpcode::RrcHLPtr => 0x0E,
            ExtendedOpcode::RrcA => 0x0F,
            ExtendedOpcode::RlB => 0x10,
            ExtendedOpcode::RlC => 0x11,
            ExtendedOpcode::RlD => 0x12,
            ExtendedOpcode::RlE => 0x13,
            ExtendedOpcode::RlH => 0x14,
            ExtendedOpcode::RlL => 0x15,
            ExtendedOpcode::RlHLPtr => 0x16,
            ExtendedOpcode::RlA => 0x17,
            ExtendedOpcode::RrB => 0x18,
            ExtendedOpcode::RrC => 0x19,
            ExtendedOpcode::RrD => 0x1A,
            ExtendedOpcode::RrE => 0x1B,
            ExtendedOpcode::RrH => 0x1C,
            ExtendedOpcode::RrL => 0x1D,
            ExtendedOpcode::RrHLPtr => 0x1E,
            ExtendedOpcode::RrA => 0x1F,
            ExtendedOpcode::SlaB => 0x20,
            ExtendedOpcode::SlaC => 0x21,
            ExtendedOpcode::SlaD => 0x22,
            ExtendedOpcode::SlaE => 0x23,
            ExtendedOpcode::SlaH => 0x24,
            ExtendedOpcode::SlaL => 0x25,
            ExtendedOpcode::SlaHLPtr => 0x26,
            ExtendedOpcode::SlaA => 0x27,
            ExtendedOpcode::SraB => 0x28,
            ExtendedOpcode::SraC => 0x29,
            ExtendedOpcode::SraD => 0x2A,
            ExtendedOpcode::SraE => 0x2B,
            ExtendedOpcode::SraH => 0x2C,
            ExtendedOpcode::SraL => 0x2D,
            ExtendedOpcode::SraHLPtr => 0x2E,
            ExtendedOpcode::SraA => 0x2F,
            ExtendedOpcode::SwapB => 0x30,
            ExtendedOpcode::SwapC => 0x31,
            ExtendedOpcode::SwapD => 0x32,
            ExtendedOpcode::SwapE => 0x33,
            ExtendedOpcode::SwapH => 0x34,
            ExtendedOpcode::SwapL => 0x35,
            ExtendedOpcode::SwapHLPtr => 0x36,
            ExtendedOpcode::SwapA => 0x37,
            ExtendedOpcode::SrlB => 0x38,
            ExtendedOpcode::SrlC => 0x39,
            ExtendedOpcode::SrlD => 0x3A,
            ExtendedOpcode::SrlE => 0x3B,
            ExtendedOpcode::SrlH => 0x3C,
            ExtendedOpcode::SrlL => 0x3D,
            ExtendedOpcode::SrlHLPtr => 0x3E,
            ExtendedOpcode::SrlA => 0x3F,
            ExtendedOpcode::Bit0B => 0x40,
            ExtendedOpcode::Bit0C => 0x41,
            ExtendedOpcode::Bit0D => 0x42,
            ExtendedOpcode::Bit0E => 0x43,
            ExtendedOpcode::Bit0H => 0x44,
            ExtendedOpcode::Bit0L => 0x45,
            ExtendedOpcode::Bit0HLPtr => 0x46,
            ExtendedOpcode::Bit0A => 0x47,
            ExtendedOpcode::Bit1B => 0x48,
            ExtendedOpcode::Bit1C => 0x49,
            ExtendedOpcode::Bit1D => 0x4A,
            ExtendedOpcode::Bit1E => 0x4B,
            ExtendedOpcode::Bit1H => 0x4C,
            ExtendedOpcode::Bit1L => 0x4D,
            ExtendedOpcode::Bit1HLPtr => 0x4E,
            ExtendedOpcode::Bit1A => 0x4F,
            ExtendedOpcode::Bit2B => 0x50,
            ExtendedOpcode::Bit2C => 0x51,
            ExtendedOpcode::Bit2D => 0x52,
            ExtendedOpcode::Bit2E => 0x53,
            ExtendedOpcode::Bit2H => 0x54,
            ExtendedOpcode::Bit2L => 0x55,
            ExtendedOpcode::Bit2HLPtr => 0x56,
            ExtendedOpcode::Bit2A => 0x57,
            ExtendedOpcode::Bit3B => 0x58,
            ExtendedOpcode::Bit3C => 0x59,
            ExtendedOpcode::Bit3D => 0x5A,
            ExtendedOpcode::Bit3E => 0x5B,
            ExtendedOpcode::Bit3H => 0x5C,
            ExtendedOpcode::Bit3L => 0x5D,
            ExtendedOpcode::Bit3HLPtr => 0x5E,
            ExtendedOpcode::Bit3A => 0x5F,
            ExtendedOpcode::Bit4B => 0x60,
            ExtendedOpcode::Bit4C => 0x61,
            ExtendedOpcode::Bit4D => 0x62,
            ExtendedOpcode::Bit4E => 0x63,
            ExtendedOpcode::Bit4H => 0x64,
            ExtendedOpcode::Bit4L => 0x65,
            ExtendedOpcode::Bit4HLPtr => 0x66,
            ExtendedOpcode::Bit4A => 0x67,
            ExtendedOpcode::Bit5B => 0x68,
            ExtendedOpcode::Bit5C => 0x69,
            ExtendedOpcode::Bit5D => 0x6A,
            ExtendedOpcode::Bit5E => 0x6B,
            ExtendedOpcode::Bit5H => 0x6C,
            ExtendedOpcode::Bit5L => 0x6D,
            ExtendedOpcode::Bit5HLPtr => 0x6E,
            ExtendedOpcode::Bit5A => 0x6F,
            ExtendedOpcode::Bit6B => 0x70,
            ExtendedOpcode::Bit6C => 0x71,
            ExtendedOpcode::Bit6D => 0x72,
            ExtendedOpcode::Bit6E => 0x73,
            ExtendedOpcode::Bit6H => 0x74,
            ExtendedOpcode::Bit6L => 0x75,
            ExtendedOpcode::Bit6HLPtr => 0x76,
            ExtendedOpcode::Bit6A => 0x77,
            ExtendedOpcode::Bit7B => 0x78,
            ExtendedOpcode::Bit7C => 0x79,
            ExtendedOpcode::Bit7D => 0x7A,
            ExtendedOpcode::Bit7E => 0x7B,
            ExtendedOpcode::Bit7H => 0x7C,
            ExtendedOpcode::Bit7L => 0x7D,
            ExtendedOpcode::Bit7HLPtr => 0x7E,
            ExtendedOpcode::Bit7A => 0x7F,
            ExtendedOpcode::Res0B => 0x80,
            ExtendedOpcode::Res0C => 0x81,
            ExtendedOpcode::Res0D => 0x82,
            ExtendedOpcode::Res0E => 0x83,
            ExtendedOpcode::Res0H => 0x84,
            ExtendedOpcode::Res0L => 0x85,
            ExtendedOpcode::Res0HLPtr => 0x86,
            ExtendedOpcode::Res0A => 0x87,
            ExtendedOpcode::Res1B => 0x88,
            ExtendedOpcode::Res1C => 0x89,
            ExtendedOpcode::Res1D => 0x8A,
            ExtendedOpcode::Res1E => 0x8B,
            ExtendedOpcode::Res1H => 0x8C,
            ExtendedOpcode::Res1L => 0x8D,
            ExtendedOpcode::Res1HLPtr => 0x8E,
            ExtendedOpcode::Res1A => 0x8F,
            ExtendedOpcode::Res2B => 0x90,
            ExtendedOpcode::Res2C => 0x91,
            ExtendedOpcode::Res2D => 0x92,
            ExtendedOpcode::Res2E => 0x93,
            ExtendedOpcode::Res2H => 0x94,
            ExtendedOpcode::Res2L => 0x95,
            ExtendedOpcode::Res2HLPtr => 0x96,
            ExtendedOpcode::Res2A => 0x97,
            ExtendedOpcode::Res3B => 0x98,
            ExtendedOpcode::Res3C => 0x99,
            ExtendedOpcode::Res3D => 0x9A,
            ExtendedOpcode::Res3E => 0x9B,
            ExtendedOpcode::Res3H => 0x9C,
            ExtendedOpcode::Res3L => 0x9D,
            ExtendedOpcode::Res3HLPtr => 0x9E,
            ExtendedOpcode::Res3A => 0x9F,
            ExtendedOpcode::Res4B => 0xA0,
            ExtendedOpcode::Res4C => 0xA1,
            ExtendedOpcode::Res4D => 0xA2,
            ExtendedOpcode::Res4E => 0xA3,
            ExtendedOpcode::Res4H => 0xA4,
            ExtendedOpcode::Res4L => 0xA5,
            ExtendedOpcode::Res4HLPtr => 0xA6,
            ExtendedOpcode::Res4A => 0xA7,
            ExtendedOpcode::Res5B => 0xA8,
            ExtendedOpcode::Res5C => 0xA9,
            ExtendedOpcode::Res5D => 0xAA,
            ExtendedOpcode::Res5E => 0xAB,
            ExtendedOpcode::Res5H => 0xAC,
            ExtendedOpcode::Res5L => 0xAD,
            ExtendedOpcode::Res5HLPtr => 0xAE,
            ExtendedOpcode::Res5A => 0xAF,
            ExtendedOpcode::Res6B => 0xB0,
            ExtendedOpcode::Res6C => 0xB1,
            ExtendedOpcode::Res6D => 0xB2,
            ExtendedOpcode::Res6E => 0xB3,
            ExtendedOpcode::Res6H => 0xB4,
            ExtendedOpcode::Res6L => 0xB5,
            ExtendedOpcode::Res6HLPtr => 0xB6,
            ExtendedOpcode::Res6A => 0xB7,
            ExtendedOpcode::Res7B => 0xB8,
            ExtendedOpcode::Res7C => 0xB9,
            ExtendedOpcode::Res7D => 0xBA,
            ExtendedOpcode::Res7E => 0xBB,
            ExtendedOpcode::Res7H => 0xBC,
            ExtendedOpcode::Res7L => 0xBD,
            ExtendedOpcode::Res7HLPtr => 0xBE,
            ExtendedOpcode::Res7A => 0xBF,
            ExtendedOpcode::Set0B => 0xC0,
            ExtendedOpcode::Set0C => 0xC1,
            ExtendedOpcode::Set0D => 0xC2,
            ExtendedOpcode::Set0E => 0xC3,
            ExtendedOpcode::Set0H => 0xC4,
            ExtendedOpcode::Set0L => 0xC5,
            ExtendedOpcode::Set0HLPtr => 0xC6,
            ExtendedOpcode::Set0A => 0xC7,
            ExtendedOpcode::Set1B => 0xC8,
            ExtendedOpcode::Set1C => 0xC9,
            ExtendedOpcode::Set1D => 0xCA,
            ExtendedOpcode::Set1E => 0xCB,
            ExtendedOpcode::Set1H => 0xCC,
            ExtendedOpcode::Set1L => 0xCD,
            ExtendedOpcode::Set1HLPtr => 0xCE,
            ExtendedOpcode::Set1A => 0xCF,
            ExtendedOpcode::Set2B => 0xD0,
            ExtendedOpcode::Set2C => 0xD1,
            ExtendedOpcode::Set2D => 0xD2,
            ExtendedOpcode::Set2E => 0xD3,
            ExtendedOpcode::Set2H => 0xD4,
            ExtendedOpcode::Set2L => 0xD5,
            ExtendedOpcode::Set2HLPtr => 0xD6,
            ExtendedOpcode::Set2A => 0xD7,
            ExtendedOpcode::Set3B => 0xD8,
            ExtendedOpcode::Set3C => 0xD9,
            ExtendedOpcode::Set3D => 0xDA,
            ExtendedOpcode::Set3E => 0xDB,
            ExtendedOpcode::Set3H => 0xDC,
            ExtendedOpcode::Set3L => 0xDD,
            ExtendedOpcode::Set3HLPtr => 0xDE,
            ExtendedOpcode::Set3A => 0xDF,
            ExtendedOpcode::Set4B => 0xE0,
            ExtendedOpcode::Set4C => 0xE1,
            ExtendedOpcode::Set4D => 0xE2,
            ExtendedOpcode::Set4E => 0xE3,
            ExtendedOpcode::Set4H => 0xE4,
            ExtendedOpcode::Set4L => 0xE5,
            ExtendedOpcode::Set4HLPtr => 0xE6,
            ExtendedOpcode::Set4A => 0xE7,
            ExtendedOpcode::Set5B => 0xE8,
            ExtendedOpcode::Set5C => 0xE9,
            ExtendedOpcode::Set5D => 0xEA,
            ExtendedOpcode::Set5E => 0xEB,
            ExtendedOpcode::Set5H => 0xEC,
            ExtendedOpcode::Set5L => 0xED,
            ExtendedOpcode::Set5HLPtr => 0xEE,
            ExtendedOpcode::Set5A => 0xEF,
            ExtendedOpcode::Set6B => 0xF0,
            ExtendedOpcode::Set6C => 0xF1,
            ExtendedOpcode::Set6D => 0xF2,
            ExtendedOpcode::Set6E => 0xF3,
            ExtendedOpcode::Set6H => 0xF4,
            ExtendedOpcode::Set6L => 0xF5,
            ExtendedOpcode::Set6HLPtr => 0xF6,
            ExtendedOpcode::Set6A => 0xF7,
            ExtendedOpcode::Set7B => 0xF8,
            ExtendedOpcode::Set7C => 0xF9,
            ExtendedOpcode::Set7D => 0xFA,
            ExtendedOpcode::Set7E => 0xFB,
            ExtendedOpcode::Set7H => 0xFC,
            ExtendedOpcode::Set7L => 0xFD,
            ExtendedOpcode::Set7HLPtr => 0xFE,
            ExtendedOpcode::Set7A => 0xFF,
        }
    }

    #[verifier::rlimit(100)]
    pub fn from_byte(b: u8) -> (r: ExtendedOpcode)
        ensures
            r.spec_byte() == b,
    {
        match b {
            0x00 => ExtendedOpcode::RlcB,
            0x01 => ExtendedOpcode::RlcC,
            0x02 => ExtendedOpcode::RlcD,
            0x03 => ExtendedOpcode::RlcE,
            0x04 => ExtendedOpcode::RlcH,
            0x05 => ExtendedOpcode::RlcL,
            0x06 => ExtendedOpcode::RlcHLPtr,
            0x07 => ExtendedOpcode::RlcA,
            0x08 => ExtendedOpcode::RrcB,
            0x09 => ExtendedOpcode::RrcC,
            0x0A => ExtendedOpcode::RrcD,
            0x0B => ExtendedOpcode::RrcE,
            0x0C => ExtendedOpcode::RrcH,
            0x0D => ExtendedOpcode::RrcL,
            0x0E => ExtendedOpcode::RrcHLPtr,
            0x0F => ExtendedOpcode::RrcA,
            0x10 => ExtendedOpcode::RlB,
            0x11 => ExtendedOpcode::RlC,
            0x12 => ExtendedOpcode::RlD,
            0x13 => ExtendedOpcode::RlE,
            0x14 => ExtendedOpcode::RlH,
            0x15 => ExtendedOpcode::RlL,
            0x16 => ExtendedOpcode::RlHLPtr,
            0x17 => ExtendedOpcode::RlA,
            0x18 => ExtendedOpcode::RrB,
            0x19 => ExtendedOpcode::RrC,
            0x1A => ExtendedOpcode::RrD,
            0x1B => ExtendedOpcode::RrE,
            0x1C => ExtendedOpcode::RrH,
            0x1D => ExtendedOpcode::RrL,
            0x1E => ExtendedOpcode::RrHLPtr,
            0x1F => ExtendedOpcode::RrA,
            0x20 => ExtendedOpcode::SlaB,
            0x21 => ExtendedOpcode::SlaC,
            0x22 => ExtendedOpcode::SlaD,
            0x23 => ExtendedOpcode::SlaE,
            0x24 => ExtendedOpcode::SlaH,
            0x25 => ExtendedOpcode::SlaL,
            0x26 => ExtendedOpcode::SlaHLPtr,
            0x27 => ExtendedOpcode::SlaA,
            0x28 => ExtendedOpcode::SraB,
            0x29 => ExtendedOpcode::SraC,
            0x2A => ExtendedOpcode::SraD,
            0x2B => ExtendedOpcode::SraE,
            0x2C => ExtendedOpcode::SraH,
            0x2D => ExtendedOpcode::SraL,
            0x2E => ExtendedOpcode::SraHLPtr,
            0x2F => ExtendedOpcode::SraA,
            0x30 => ExtendedOpcode::SwapB,
            0x31 => ExtendedOpcode::SwapC,
            0x32 => ExtendedOpcode::SwapD,
            0x33 => ExtendedOpcode::SwapE,
            0x34 => ExtendedOpcode::SwapH,
            0x35 => ExtendedOpcode::SwapL,
            0x36 => ExtendedOpcode::SwapHLPtr,
            0x37 => ExtendedOpcode::SwapA,
            0x38 => ExtendedOpcode::SrlB,
            0x39 => ExtendedOpcode::SrlC,
            0x3A => ExtendedOpcode::SrlD,
            0x3B => ExtendedOpcode::SrlE,
            0x3C => ExtendedOpcode::SrlH,
            0x3D => ExtendedOpcode::SrlL,
            0x3E => ExtendedOpcode::SrlHLPtr,
            0x3F => ExtendedOpcode::SrlA,
            0x40 => ExtendedOpcode::Bit0B,
            0x41 => ExtendedOpcode::Bit0C,
            0x42 => ExtendedOpcode::Bit0D,
            0x43 => ExtendedOpcode::Bit0E,
            0x44 => ExtendedOpcode::Bit0H,
            0x45 => ExtendedOpcode::Bit0L,
            0x46 => ExtendedOpcode::Bit0HLPtr,
            0x47 => ExtendedOpcode::Bit0A,
            0x48 => ExtendedOpcode::Bit1B,
            0x49 => ExtendedOpcode::Bit1C,
            0x4A => ExtendedOpcode::Bit1D,
            0x4B => ExtendedOpcode::Bit1E,
            0x4C => ExtendedOpcode::Bit1H,
            0x4D => ExtendedOpcode::Bit1L,
            0x4E => ExtendedOpcode::Bit1HLPtr,
            0x4F => ExtendedOpcode::Bit1A,
            0x50 => ExtendedOpcode::Bit2B,
            0x51 => ExtendedOpcode::Bit2C,
            0x52 => ExtendedOpcode::Bit2D,
            0x53 => ExtendedOpcode::Bit2E,
            0x54 => ExtendedOpcode::Bit2H,
            0x55 => ExtendedOpcode::Bit2L,
            0x56 => ExtendedOpcode::Bit2HLPtr,
            0x57 => ExtendedOpcode::Bit2A,
            0x58 => ExtendedOpcode::Bit3B,
            0x59 => ExtendedOpcode::Bit3C,
            0x5A => ExtendedOpcode::Bit3D,
            0x5B => ExtendedOpcode::Bit3E,
            0x5C => ExtendedOpcode::Bit3H,
            0x5D => ExtendedOpcode::Bit3L,
            0x5E => ExtendedOpcode::Bit3HLPtr,
            0x5F => ExtendedOpcode::Bit3A,
            0x60 => ExtendedOpcode::Bit4B,
            0x61 => ExtendedOpcode::Bit4C,
            0x62 => ExtendedOpcode::Bit4D,
            0x63 => ExtendedOpcode::Bit4E,
            0x64 => ExtendedOpcode::Bit4H,
            0x65 => ExtendedOpcode::Bit4L,
            0x66 => ExtendedOpcode::Bit4HLPtr,
            0x67 => ExtendedOpcode::Bit4A,
            0x68 => ExtendedOpcode::Bit5B,
            0x69 => ExtendedOpcode::Bit5C,
            0x6A => ExtendedOpcode::Bit5D,
            0x6B => ExtendedOpcode::Bit5E,
            0x6C => ExtendedOpcode::Bit5H,
            0x6D => ExtendedOpcode::Bit5L,
            0x6E => ExtendedOpcode::Bit5HLPtr,
            0x6F => ExtendedOpcode::Bit5A,
            0x70 => ExtendedOpcode::Bit6B,
            0x71 => ExtendedOpcode::Bit6C,
            0x72 => ExtendedOpcode::Bit6D,
            0x73 => ExtendedOpcode::Bit6E,
            0x74 => ExtendedOpcode::Bit6H,
            0x75 => ExtendedOpcode::Bit6L,
            0x76 => ExtendedOpcode::Bit6HLPtr,
            0x77 => ExtendedOpcode::Bit6A,
            0x78 => ExtendedOpcode::Bit7B,
            0x79 => ExtendedOpcode::Bit7C,
            0x7A => ExtendedOpcode::Bit7D,
            0x7B => ExtendedOpcode::Bit7E,
            0x7C => ExtendedOpcode::Bit7H,
            0x7D => ExtendedOpcode::Bit7L,
            0x7E => ExtendedOpcode::Bit7HLPtr,
            0x7F => ExtendedOpcode::Bit7A,
            0x80 => ExtendedOpcode::Res0B,
            0x81 => ExtendedOpcode::Res0C,
            0x82 => ExtendedOpcode::Res0D,
            0x83 => ExtendedOpcode::Res0E,
            0x84 => ExtendedOpcode::Res0H,
            0x85 => ExtendedOpcode::Res0L,
            0x86 => ExtendedOpcode::Res0HLPtr,
            0x87 => ExtendedOpcode::Res0A,
            0x88 => ExtendedOpcode::Res1B,
            0x89 => ExtendedOpcode::Res1C,
            0x8A => ExtendedOpcode::Res1D,
            0x8B => ExtendedOpcode::Res1E,
            0x8C => ExtendedOpcode::Res1H,
            0x8D => ExtendedOpcode::Res1L,
            0x8E => ExtendedOpcode::Res1HLPtr,
            0x8F => ExtendedOpcode::Res1A,
            0x90 => ExtendedOpcode::Res2B,
            0x91 => ExtendedOpcode::Res2C,
            0x92 => ExtendedOpcode::Res2D,
            0x93 => ExtendedOpcode::Res2E,
            0x94 => ExtendedOpcode::Res2H,
            0x95 => ExtendedOpcode::Res2L,
            0x96 => ExtendedOpcode::Res2HLPtr,
            0x97 => ExtendedOpcode::Res2A,
            0x98 => ExtendedOpcode::Res3B,
            0x99 => ExtendedOpcode::Res3C,
            0x9A => ExtendedOpcode::Res3D,
            0x9B => ExtendedOpcode::Res3E,
            0x9C => ExtendedOpcode::Res3H,
            0x9D => ExtendedOpcode::Res3L,
            0x9E => ExtendedOpcode::Res3HLPtr,
            0x9F => ExtendedOpcode::Res3A,
            0xA0 => ExtendedOpcode::Res4B,
            0xA1 => ExtendedOpcode::Res4C,
            0xA2 => ExtendedOpcode::Res4D,
            0xA3 => ExtendedOpcode::Res4E,
            0xA4 => ExtendedOpcode::Res4H,
            0xA5 => ExtendedOpcode::Res4L,
            0xA6 => ExtendedOpcode::Res4HLPtr,
            0xA7 => ExtendedOpcode::Res4A,
            0xA8 => ExtendedOpcode::Res5B,
            0xA9 => ExtendedOpcode::Res5C,
            0xAA => ExtendedOpcode::Res5D,
            0xAB => ExtendedOpcode::Res5E,
            0xAC => ExtendedOpcode::Res5H,
            0xAD => ExtendedOpcode::Res5L,
            0xAE => ExtendedOpcode::Res5HLPtr,
            0xAF => ExtendedOpcode::Res5A,
            0xB0 => ExtendedOpcode::Res6B,
            0xB1 => ExtendedOpcode::Res6C,
            0xB2 => ExtendedOpcode::Res6D,
            0xB3 => ExtendedOpcode::Res6E,
            0xB4 => ExtendedOpcode::Res6H,
            0xB5 => ExtendedOpcode::Res6L,
            0xB6 => ExtendedOpcode::Res6HLPtr,
            0xB7 => ExtendedOpcode::Res6A,
            0xB8 => ExtendedOpcode::Res7B,
            0xB9 => ExtendedOpcode::Res7C,
            0xBA => ExtendedOpcode::Res7D,
            0xBB => ExtendedOpcode::Res7E,
            0xBC => ExtendedOpcode::Res7H,
            0xBD => ExtendedOpcode::Res7L,
            0xBE => ExtendedOpcode::Res7HLPtr,
            0xBF => ExtendedOpcode::Res7A,
            0xC0 => ExtendedOpcode::Set0B,
            0xC1 => ExtendedOpcode::Set0C,
            0xC2 => ExtendedOpcode::Set0D,
            0xC3 => ExtendedOpcode::Set0E,
            0xC4 => ExtendedOpcode::Set0H,
            0xC5 => ExtendedOpcode::Set0L,
            0xC6 => ExtendedOpcode::Set0HLPtr,
            0xC7 => ExtendedOpcode::Set0A,
            0xC8 => ExtendedOpcode::Set1B,
            0xC9 => ExtendedOpcode::Set1C,
            0xCA => ExtendedOpcode::Set1D,
            0xCB => ExtendedOpcode::Set1E,
            0xCC => ExtendedOpcode::Set1H,
            0xCD => ExtendedOpcode::Set1L,
            0xCE => ExtendedOpcode::Set1HLPtr,
            0xCF => ExtendedOpcode::Set1A,
            0xD0 => ExtendedOpcode::Set2B,
            0xD1 => ExtendedOpcode::Set2C,
            0xD2 => ExtendedOpcode::Set2D,
            0xD3 => ExtendedOpcode::Set2E,
            0xD4 => ExtendedOpcode::Set2H,
            0xD5 => ExtendedOpcode::Set2L,
            0xD6 => ExtendedOpcode::Set2HLPtr,
            0xD7 => ExtendedOpcode::Set2A,
            0xD8 => ExtendedOpcode::Set3B,
            0xD9 => ExtendedOpcode::Set3C,
            0xDA => ExtendedOpcode::Set3D,
            0xDB => ExtendedOpcode::Set3E,
            0xDC => ExtendedOpcode::Set3H,
            0xDD => ExtendedOpcode::Set3L,
            0xDE => ExtendedOpcode::Set3HLPtr,
            0xDF => ExtendedOpcode::Set3A,
            0xE0 => ExtendedOpcode::Set4B,
            0xE1 => ExtendedOpcode::Set4C,
            0xE2 => ExtendedOpcode::Set4D,
            0xE3 => ExtendedOpcode::Set4E,
            0xE4 => ExtendedOpcode::Set4H,
            0xE5 => ExtendedOpcode::Set4L,
            0xE6 => ExtendedOpcode::Set4HLPtr,
            0xE7 => ExtendedOpcode::Set4A,
            0xE8 => ExtendedOpcode::Set5B,
            0xE9 => ExtendedOpcode::Set5C,
            0xEA => ExtendedOpcode::Set5D,
            0xEB => ExtendedOpcode::Set5E,
            0xEC => ExtendedOpcode::Set5H,
            0xED => ExtendedOpcode::Set5L,
            0xEE => ExtendedOpcode::Set5HLPtr,
            0xEF => ExtendedOpcode::Set5A,
            0xF0 => ExtendedOpcode::Set6B,
            0xF1 => ExtendedOpcode::Set6C,
            0xF2 => ExtendedOpcode::Set6D,
            0xF3 => ExtendedOpcode::Set6E,
            0xF4 => ExtendedOpcode::Set6H,
            0xF5 => ExtendedOpcode::Set6L,
            0xF6 => ExtendedOpcode::Set6HLPtr,
            0xF7 => ExtendedOpcode::Set6A,
            0xF8 => ExtendedOpcode::Set7B,
            0xF9 => ExtendedOpcode::Set7C,
            0xFA => ExtendedOpcode::Set7D,
            0xFB => ExtendedOpcode::Set7E,
            0xFC => ExtendedOpcode::Set7H,
            0xFD => ExtendedOpcode::Set7L,
            0xFE => ExtendedOpcode::Set7HLPtr,
            _ => ExtendedOpcode::Set7A,
        }
    }

    /// The assembly mnemonic, for display.
    pub fn mnemonic(&self) -> &'static str {
        match self {
            ExtendedOpcode::RlcB => "RLC B",
            ExtendedOpcode::RlcC => "RLC C",
            ExtendedOpcode::RlcD => "RLC D",
            ExtendedOpcode::RlcE => "RLC E",
            ExtendedOpcode::RlcH => "RLC H",
            ExtendedOpcode::RlcL => "RLC L",
            ExtendedOpcode::RlcHLPtr => "RLC (HL)",
            ExtendedOpcode::RlcA => "RLC A",
            ExtendedOpcode::RrcB => "RRC B",
            ExtendedOpcode::RrcC => "RRC C",
            ExtendedOpcode::RrcD => "RRC D",
            ExtendedOpcode::RrcE => "RRC E",
            ExtendedOpcode::RrcH => "RRC H",
            ExtendedOpcode::RrcL => "RRC L",
            ExtendedOpcode::RrcHLPtr => "RRC (HL)",
            ExtendedOpcode::RrcA => "RRC A",
            ExtendedOpcode::RlB => "RL B",
            ExtendedOpcode::RlC => "RL C",
            ExtendedOpcode::RlD => "RL D",
            ExtendedOpcode::RlE => "RL E",
            ExtendedOpcode::RlH => "RL H",
            ExtendedOpcode::RlL => "RL L",
            ExtendedOpcode::RlHLPtr => "RL (HL)",
            ExtendedOpcode::RlA => "RL A",
            ExtendedOpcode::RrB => "RR B",
            ExtendedOpcode::RrC => "RR C",
            ExtendedOpcode::RrD => "RR D",
            ExtendedOpcode::RrE => "RR E",
            ExtendedOpcode::RrH => "RR H",
            ExtendedOpcode::RrL => "RR L",
            ExtendedOpcode::RrHLPtr => "RR (HL)",
            ExtendedOpcode::RrA => "RR A",
            ExtendedOpcode::SlaB => "SLA B",
            ExtendedOpcode::SlaC => "SLA C",
            ExtendedOpcode::SlaD => "SLA D",
            ExtendedOpcode::SlaE => "SLA E",
            ExtendedOpcode::SlaH => "SLA H",
            ExtendedOpcode::SlaL => "SLA L",
            ExtendedOpcode::SlaHLPtr => "SLA (HL)",
            ExtendedOpcode::SlaA => "SLA A",
            ExtendedOpcode::SraB => "SRA B",
            ExtendedOpcode::SraC => "SRA C",
            ExtendedOpcode::SraD => "SRA D",
            ExtendedOpcode::SraE => "SRA E",
            ExtendedOpcode::SraH => "SRA H",
            ExtendedOpcode::SraL => "SRA L",
            ExtendedOpcode::SraHLPtr => "SRA (HL)",
            ExtendedOpcode::SraA => "SRA A",
            ExtendedOpcode::SwapB => "SWAP B",
            ExtendedOpcode::SwapC => "SWAP C",
            ExtendedOpcode::SwapD => "SWAP D",
            ExtendedOpcode::SwapE => "SWAP E",
            ExtendedOpcode::SwapH => "SWAP H",
            ExtendedOpcode::SwapL => "SWAP L",
            ExtendedOpcode::SwapHLPtr => "SWAP (HL)",
            ExtendedOpcode::SwapA => "SWAP A",
            ExtendedOpcode::SrlB => "SRL B",
            ExtendedOpcode::SrlC => "SRL C",
            ExtendedOpcode::SrlD => "SRL D",
            ExtendedOpcode::SrlE => "SRL E",
            ExtendedOpcode::SrlH => "SRL H",
            ExtendedOpcode::SrlL => "SRL L",
            ExtendedOpcode::SrlHLPtr => "SRL (HL)",
            ExtendedOpcode::SrlA => "SRL A",
            ExtendedOpcode::Bit0B => "BIT 0,B",
            ExtendedOpcode::Bit0C => "BIT 0,C",
            ExtendedOpcode::Bit0D => "BIT 0,D",
            ExtendedOpcode::Bit0E => "BIT 0,E",
            ExtendedOpcode::Bit0H => "BIT 0,H",
            ExtendedOpcode::Bit0L => "BIT 0,L",
            ExtendedOpcode::Bit0HLPtr => "BIT 0,(HL)",
            ExtendedOpcode::Bit0A => "BIT 0,A",
            ExtendedOpcode::Bit1B => "BIT 1,B",
            ExtendedOpcode::Bit1C => "BIT 1,C",
            ExtendedOpcode::Bit1D => "BIT 1,D",
            ExtendedOpcode::Bit1E => "BIT 1,E",
            ExtendedOpcode::Bit1H => "BIT 1,H",
            ExtendedOpcode::Bit1L => "BIT 1,L",
            ExtendedOpcode::Bit1HLPtr => "BIT 1,(HL)",
            ExtendedOpcode::Bit1A => "BIT 1,A",
            ExtendedOpcode::Bit2B => "BIT 2,B",
            ExtendedOpcode::Bit2C => "BIT 2,C",
            ExtendedOpcode::Bit2D => "BIT 2,D",
            ExtendedOpcode::Bit2E => "BIT 2,E",
            ExtendedOpcode::Bit2H => "BIT 2,H",
            ExtendedOpcode::Bit2L => "BIT 2,L",
            ExtendedOpcode::Bit2HLPtr => "BIT 2,(HL)",
            ExtendedOpcode::Bit2A => "BIT 2,A",
            ExtendedOpcode::Bit3B => "BIT 3,B",
            ExtendedOpcode::Bit3C => "BIT 3,C",
            ExtendedOpcode::Bit3D => "BIT 3,D",
            ExtendedOpcode::Bit3E => "BIT 3,E",
            ExtendedOpcode::Bit3H => "BIT 3,H",
            ExtendedOpcode::Bit3L => "BIT 3,L",
            ExtendedOpcode::Bit3HLPtr => "BIT 3,(HL)",
            ExtendedOpcode::Bit3A => "BIT 3,A",
            ExtendedOpcode::Bit4B => "BIT 4,B",
            ExtendedOpcode::Bit4C => "BIT 4,C",
            ExtendedOpcode::Bit4D => "BIT 4,D",
            ExtendedOpcode::Bit4E => "BIT 4,E",
            ExtendedOpcode::Bit4H => "BIT 4,H",
            ExtendedOpcode::Bit4L => "BIT 4,L",
            ExtendedOpcode::Bit4HLPtr => "BIT 4,(HL)",
            ExtendedOpcode::Bit4A => "BIT 4,A",
            ExtendedOpcode::Bit5B => "BIT 5,B",
            ExtendedOpcode::Bit5C => "BIT 5,C",
            ExtendedOpcode::Bit5D => "BIT 5,D",
            ExtendedOpcode::Bit5E => "BIT 5,E",
            ExtendedOpcode::Bit5H => "BIT 5,H",
            ExtendedOpcode::Bit5L => "BIT 5,L",
            ExtendedOpcode::Bit5HLPtr => "BIT 5,(HL)",
            ExtendedOpcode::Bit5A => "BIT 5,A",
            ExtendedOpcode::Bit6B => "BIT 6,B",
            ExtendedOpcode::Bit6C => "BIT 6,C",
            ExtendedOpcode::Bit6D => "BIT 6,D",
            ExtendedOpcode::Bit6E => "BIT 6,E",
            ExtendedOpcode::Bit6H => "BIT 6,H",
            ExtendedOpcode::Bit6L => "BIT 6,L",
            ExtendedOpcode::Bit6HLPtr => "BIT 6,(HL)",
            ExtendedOpcode::Bit6A => "BIT 6,A",
            ExtendedOpcode::Bit7B => "BIT 7,B",
            ExtendedOpcode::Bit7C => "BIT 7,C",
            ExtendedOpcode::Bit7D => "BIT 7,D",
            ExtendedOpcode::Bit7E => "BIT 7,E",
            ExtendedOpcode::Bit7H => "BIT 7,H",
            ExtendedOpcode::Bit7L => "BIT 7,L",
            ExtendedOpcode::Bit7HLPtr => "BIT 7,(HL)",
            ExtendedOpcode::Bit7A => "BIT 7,A",
            ExtendedOpcode::Res0B => "RES 0,B",
            ExtendedOpcode::Res0C => "RES 0,C",
            ExtendedOpcode::Res0D => "RES 0,D",
            ExtendedOpcode::Res0E => "RES 0,E",
            ExtendedOpcode::Res0H => "RES 0,H",
            ExtendedOpcode::Res0L => "RES 0,L",
            ExtendedOpcode::Res0HLPtr => "RES 0,(HL)",
            ExtendedOpcode::Res0A => "RES 0,A",
            ExtendedOpcode::Res1B => "RES 1,B",
            ExtendedOpcode::Res1C => "RES 1,C",
            ExtendedOpcode::Res1D => "RES 1,D",
            ExtendedOpcode::Res1E => "RES 1,E",
            ExtendedOpcode::Res1H => "RES 1,H",
            ExtendedOpcode::Res1L => "RES 1,L",
            ExtendedOpcode::Res1HLPtr => "RES 1,(HL)",
            ExtendedOpcode::Res1A => "RES 1,A",
            ExtendedOpcode::Res2B => "RES 2,B",
            ExtendedOpcode::Res2C => "RES 2,C",
            ExtendedOpcode::Res2D => "RES 2,D",
            ExtendedOpcode::Res2E => "RES 2,E",
            ExtendedOpcode::Res2H => "RES 2,H",
            ExtendedOpcode::Res2L => "RES 2,L",
            ExtendedOpcode::Res2HLPtr => "RES 2,(HL)",
            ExtendedOpcode::Res2A => "RES 2,A",
            ExtendedOpcode::Res3B => "RES 3,B",
            ExtendedOpcode::Res3C => "RES 3,C",
            ExtendedOpcode::Res3D => "RES 3,D",
            ExtendedOpcode::Res3E => "RES 3,E",
            ExtendedOpcode::Res3H => "RES 3,H",
            ExtendedOpcode::Res3L => "RES 3,L",
            ExtendedOpcode::Res3HLPtr => "RES 3,(HL)",
            ExtendedOpcode::Res3A => "RES 3,A",
            ExtendedOpcode::Res4B => "RES 4,B",
            ExtendedOpcode::Res4C => "RES 4,C",
            ExtendedOpcode::Res4D => "RES 4,D",
            ExtendedOpcode::Res4E => "RES 4,E",
            ExtendedOpcode::Res4H => "RES 4,H",
            ExtendedOpcode::Res4L => "RES 4,L",
            ExtendedOpcode::Res4HLPtr => "RES 4,(HL)",
            ExtendedOpcode::Res4A => "RES 4,A",
            ExtendedOpcode::Res5B => "RES 5,B",
            ExtendedOpcode::Res5C => "RES 5,C",
            ExtendedOpcode::Res5D => "RES 5,D",
            ExtendedOpcode::Res5E => "RES 5,E",
            ExtendedOpcode::Res5H => "RES 5,H",
            ExtendedOpcode::Res5L => "RES 5,L",
            ExtendedOpcode::Res5HLPtr => "RES 5,(HL)",
            ExtendedOpcode::Res5A => "RES 5,A",
            ExtendedOpcode::Res6B => "RES 6,B",
            ExtendedOpcode::Res6C => "RES 6,C",
            ExtendedOpcode::Res6D => "RES 6,D",
            ExtendedOpcode::Res6E => "RES 6,E",
            ExtendedOpcode::Res6H => "RES 6,H",
            ExtendedOpcode::Res6L => "RES 6,L",
            ExtendedOpcode::Res6HLPtr => "RES 6,(HL)",
            ExtendedOpcode::Res6A => "RES 6,A",
            ExtendedOpcode::Res7B => "RES 7,B",
            ExtendedOpcode::Res7C => "RES 7,C",
            ExtendedOpcode::Res7D => "RES 7,D",
            ExtendedOpcode::Res7E => "RES 7,E",
            ExtendedOpcode::Res7H => "RES 7,H",
            ExtendedOpcode::Res7L => "RES 7,L",
            ExtendedOpcode::Res7HLPtr => "RES 7,(HL)",
            ExtendedOpcode::Res7A => "RES 7,A",
            ExtendedOpcode::Set0B => "SET 0,B",
            ExtendedOpcode::Set0C => "SET 0,C",
            ExtendedOpcode::Set0D => "SET 0,D",
            ExtendedOpcode::Set0E => "SET 0,E",
            ExtendedOpcode::Set0H => "SET 0,H",
            ExtendedOpcode::Set0L => "SET 0,L",
            ExtendedOpcode::Set0HLPtr => "SET 0,(HL)",
            ExtendedOpcode::Set0A => "SET 0,A",
            ExtendedOpcode::Set1B => "SET 1,B",
            ExtendedOpcode::Set1C => "SET 1,C",
            ExtendedOpcode::Set1D => "SET 1,D",
            ExtendedOpcode::Set1E => "SET 1,E",
            ExtendedOpcode::Set1H => "SET 1,H",
            ExtendedOpcode::Set1L => "SET 1,L",
            ExtendedOpcode::Set1HLPtr => "SET 1,(HL)",
            ExtendedOpcode::Set1A => "SET 1,A",
            ExtendedOpcode::Set2B => "SET 2,B",
            ExtendedOpcode::Set2C => "SET 2,C",
            ExtendedOpcode::Set2D => "SET 2,D",
            ExtendedOpcode::Set2E => "SET 2,E",
            ExtendedOpcode::Set2H => "SET 2,H",
            ExtendedOpcode::Set2L => "SET 2,L",
            ExtendedOpcode::Set2HLPtr => "SET 2,(HL)",
            ExtendedOpcode::Set2A => "SET 2,A",
            ExtendedOpcode::Set3B => "SET 3,B",
            ExtendedOpcode::Set3C => "SET 3,C",
            ExtendedOpcode::Set3D => "SET 3,D",
            ExtendedOpcode::Set3E => "SET 3,E",
            ExtendedOpcode::Set3H => "SET 3,H",
            ExtendedOpcode::Set3L => "SET 3,L",
            ExtendedOpcode::Set3HLPtr => "SET 3,(HL)",
            ExtendedOpcode::Set3A => "SET 3,A",
            ExtendedOpcode::Set4B => "SET 4,B",
            ExtendedOpcode::Set4C => "SET 4,C",
            ExtendedOpcode::Set4D => "SET 4,D",
            ExtendedOpcode::Set4E => "SET 4,E",
            ExtendedOpcode::Set4H => "SET 4,H",
            ExtendedOpcode::Set4L => "SET 4,L",
            ExtendedOpcode::Set4HLPtr => "SET 4,(HL)",
            ExtendedOpcode::Set4A => "SET 4,A",
            ExtendedOpcode::Set5B => "SET 5,B",
            ExtendedOpcode::Set5C => "SET 5,C",
            ExtendedOpcode::Set5D => "SET 5,D",
            ExtendedOpcode::Set5E => "SET 5,E",
            ExtendedOpcode::Set5H => "SET 5,H",
            ExtendedOpcode::Set5L => "SET 5,L",
            ExtendedOpcode::Set5HLPtr => "SET 5,(HL)",
            ExtendedOpcode::Set5A => "SET 5,A",
            ExtendedOpcode::Set6B => "SET 6,B",
            ExtendedOpcode::Set6C => "SET 6,C",
            ExtendedOpcode::Set6D => "SET 6,D",
            ExtendedOpcode::Set6E => "SET 6,E",
            ExtendedOpcode::Set6H => "SET 6,H",
            ExtendedOpcode::Set6L => "SET 6,L",
            ExtendedOpcode::Set6HLPtr => "SET 6,(HL)",
            ExtendedOpcode::Set6A => "SET 6,A",
            ExtendedOpcode::Set7B => "SET 7,B",
            ExtendedOpcode::Set7C => "SET 7,C",
            ExtendedOpcode::Set7D => "SET 7,D",
            ExtendedOpcode::Set7E => "SET 7,E",
            ExtendedOpcode::Set7H => "SET 7,H",
            ExtendedOpcode::Set7L => "SET 7,L",
            ExtendedOpcode::Set7HLPtr => "SET 7,(HL)",
            ExtendedOpcode::Set7A => "SET 7,A",
        }
    }

    /// The ticks the instruction takes, the prefix byte included.
    pub fn timing(&self) -> (r: u8)
        ensures
            r == cb_cycles(self.spec_byte()) + 4,
    {
        (cb_cycle_count(self.byte()) + 4) as u8
    }
}

} // verus!
