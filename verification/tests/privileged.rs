//! The privileged registers: defaults, fields written and read back, and
//! the writes that `store` asks for.

use prussia::privileged::{
    BGCOLOR, BUSDIR, CSR, DISPFB1, DISPFB2, DISPLAY1, DISPLAY2, EXTBUF, EXTDATA, EXTWRITE, IMR,
    PMODE, SIGLBLID, SMODE1, SMODE2, SRFSH, SYNCH1, SYNCH2, SYNCV, RegisterWrite,
};

#[test]
fn pmode_starts_from_its_default() {
    let r = PMODE::new();
    assert_eq!(r.into_bits(), 0x4);
    assert_eq!(r.en1(), false);
    assert_eq!(r.en2(), false);
    assert_eq!(r.crtmd(), 0x1);
    assert_eq!(r.mmod(), false);
    assert_eq!(r.amod(), false);
    assert_eq!(r.slbg(), false);
    assert_eq!(r.alp(), 0x0);
}

#[test]
fn pmode_reads_every_field_of_a_word_of_ones() {
    let r = PMODE::from_bits(u64::MAX);
    assert_eq!(r.into_bits(), u64::MAX);
    assert_eq!(r.en1(), true);
    assert_eq!(r.en2(), true);
    assert_eq!(r.crtmd(), 0x7);
    assert_eq!(r.mmod(), true);
    assert_eq!(r.amod(), true);
    assert_eq!(r.slbg(), true);
    assert_eq!(r.alp(), 0xFF);
}

#[test]
fn pmode_holds_what_was_written_field_by_field() {
    let r = PMODE::new()
        .with_en1(true)
        .with_en2(true)
        .with_crtmd(0x3)
        .with_mmod(true)
        .with_amod(true)
        .with_slbg(true)
        .with_alp(0xF3);
    assert_eq!(r.into_bits(), 0xF3EF);
    assert_eq!(r.en1(), true);
    assert_eq!(r.en2(), true);
    assert_eq!(r.crtmd(), 0x3);
    assert_eq!(r.mmod(), true);
    assert_eq!(r.amod(), true);
    assert_eq!(r.slbg(), true);
    assert_eq!(r.alp(), 0xF3);
}

#[test]
fn pmode_writes_en2_and_nothing_else() {
    let r = PMODE::from_bits(u64::MAX).with_en2(false);
    assert_eq!(r.into_bits(), 0xFFFF_FFFF_FFFF_FFFD);
    assert_eq!(r.en1(), true);
    assert_eq!(r.en2(), false);
    assert_eq!(r.crtmd(), 0x7);
    assert_eq!(r.mmod(), true);
    assert_eq!(r.amod(), true);
    assert_eq!(r.slbg(), true);
    assert_eq!(r.alp(), 0xFF);
}

#[test]
fn pmode_cuts_an_overlong_crtmd() {
    let r = PMODE::from_bits(0).with_crtmd(u8::MAX);
    assert_eq!(r.into_bits(), 0x1C);
    assert_eq!(r.crtmd(), 0x7);
    let r = PMODE::from_bits(0).with_crtmd(0x9);
    assert_eq!(r.crtmd(), 0x1);
}

#[test]
fn pmode_is_stored_at_its_address() {
    let write = PMODE::from_bits(0xF3EF).store();
    assert_eq!(write, RegisterWrite { address: 0x1200_0000, value: 0xF3EF });
}

#[test]
fn smode1_starts_from_its_default() {
    let r = SMODE1::new();
    assert_eq!(r.into_bits(), 0x0);
    assert_eq!(r.rc(), 0x0);
    assert_eq!(r.kc(), 0x0);
    assert_eq!(r.t1248(), 0x0);
    assert_eq!(r.slck(), 0x0);
    assert_eq!(r.cmod(), 0x0);
    assert_eq!(r.ex(), 0x0);
    assert_eq!(r.prst(), 0x0);
    assert_eq!(r.sint(), 0x0);
    assert_eq!(r.xpck(), 0x0);
    assert_eq!(r.pck2(), 0x0);
    assert_eq!(r.spml(), 0x0);
    assert_eq!(r.gcont(), 0x0);
    assert_eq!(r.phs(), 0x0);
    assert_eq!(r.pvs(), 0x0);
    assert_eq!(r.pehs(), 0x0);
    assert_eq!(r.pevs(), 0x0);
    assert_eq!(r.clksel(), 0x0);
    assert_eq!(r.nvck(), 0x0);
    assert_eq!(r.slck2(), 0x0);
    assert_eq!(r.vcksel(), 0x0);
    assert_eq!(r.vck2(), 0x0);
}

#[test]
fn smode1_reads_every_field_of_a_word_of_ones() {
    let r = SMODE1::from_bits(u64::MAX);
    assert_eq!(r.into_bits(), u64::MAX);
    assert_eq!(r.rc(), 0x7);
    assert_eq!(r.kc(), 0x7F);
    assert_eq!(r.t1248(), 0x3);
    assert_eq!(r.slck(), 0x1);
    assert_eq!(r.cmod(), 0x3);
    assert_eq!(r.ex(), 0x1);
    assert_eq!(r.prst(), 0x1);
    assert_eq!(r.sint(), 0x1);
    assert_eq!(r.xpck(), 0x1);
    assert_eq!(r.pck2(), 0x3);
    assert_eq!(r.spml(), 0xF);
    assert_eq!(r.gcont(), 0x1);
    assert_eq!(r.phs(), 0x1);
    assert_eq!(r.pvs(), 0x1);
    assert_eq!(r.pehs(), 0x1);
    assert_eq!(r.pevs(), 0x1);
    assert_eq!(r.clksel(), 0x3);
    assert_eq!(r.nvck(), 0x1);
    assert_eq!(r.slck2(), 0x1);
    assert_eq!(r.vcksel(), 0x3);
    assert_eq!(r.vck2(), 0x1);
}

#[test]
fn smode1_holds_what_was_written_field_by_field() {
    let r = SMODE1::new()
        .with_rc(0x6)
        .with_kc(0x7)
        .with_t1248(0x1)
        .with_slck(0x1)
        .with_cmod(0x3)
        .with_ex(0x1)
        .with_prst(0x1)
        .with_sint(0x1)
        .with_xpck(0x1)
        .with_pck2(0x1)
        .with_spml(0x6)
        .with_gcont(0x1)
        .with_phs(0x1)
        .with_pvs(0x1)
        .with_pehs(0x1)
        .with_pevs(0x1)
        .with_clksel(0x3)
        .with_nvck(0x1)
        .with_slck2(0x1)
        .with_vcksel(0x1)
        .with_vck2(0x1);
    assert_eq!(r.into_bits(), 0x17_FECF_F43E);
    assert_eq!(r.rc(), 0x6);
    assert_eq!(r.kc(), 0x7);
    assert_eq!(r.t1248(), 0x1);
    assert_eq!(r.slck(), 0x1);
    assert_eq!(r.cmod(), 0x3);
    assert_eq!(r.ex(), 0x1);
    assert_eq!(r.prst(), 0x1);
    assert_eq!(r.sint(), 0x1);
    assert_eq!(r.xpck(), 0x1);
    assert_eq!(r.pck2(), 0x1);
    assert_eq!(r.spml(), 0x6);
    assert_eq!(r.gcont(), 0x1);
    assert_eq!(r.phs(), 0x1);
    assert_eq!(r.pvs(), 0x1);
    assert_eq!(r.pehs(), 0x1);
    assert_eq!(r.pevs(), 0x1);
    assert_eq!(r.clksel(), 0x3);
    assert_eq!(r.nvck(), 0x1);
    assert_eq!(r.slck2(), 0x1);
    assert_eq!(r.vcksel(), 0x1);
    assert_eq!(r.vck2(), 0x1);
}

#[test]
fn smode1_writes_clksel_and_nothing_else() {
    let r = SMODE1::from_bits(u64::MAX).with_clksel(0x0);
    assert_eq!(r.into_bits(), 0xFFFF_FFFF_3FFF_FFFF);
    assert_eq!(r.rc(), 0x7);
    assert_eq!(r.kc(), 0x7F);
    assert_eq!(r.t1248(), 0x3);
    assert_eq!(r.slck(), 0x1);
    assert_eq!(r.cmod(), 0x3);
    assert_eq!(r.ex(), 0x1);
    assert_eq!(r.prst(), 0x1);
    assert_eq!(r.sint(), 0x1);
    assert_eq!(r.xpck(), 0x1);
    assert_eq!(r.pck2(), 0x3);
    assert_eq!(r.spml(), 0xF);
    assert_eq!(r.gcont(), 0x1);
    assert_eq!(r.phs(), 0x1);
    assert_eq!(r.pvs(), 0x1);
    assert_eq!(r.pehs(), 0x1);
    assert_eq!(r.pevs(), 0x1);
    assert_eq!(r.clksel(), 0x0);
    assert_eq!(r.nvck(), 0x1);
    assert_eq!(r.slck2(), 0x1);
    assert_eq!(r.vcksel(), 0x3);
    assert_eq!(r.vck2(), 0x1);
}

#[test]
fn smode1_cuts_an_overlong_prst() {
    let r = SMODE1::from_bits(0).with_prst(u8::MAX);
    assert_eq!(r.into_bits(), 0x1_0000);
    assert_eq!(r.prst(), 0x1);
    let r = SMODE1::from_bits(0).with_prst(0x3);
    assert_eq!(r.prst(), 0x1);
}

#[test]
fn smode1_is_stored_at_its_address() {
    let write = SMODE1::from_bits(0x17_FECF_F43E).store();
    assert_eq!(write, RegisterWrite { address: 0x1200_0010, value: 0x17_FECF_F43E });
}

#[test]
fn smode2_starts_from_its_default() {
    let r = SMODE2::new();
    assert_eq!(r.into_bits(), 0x0);
    assert_eq!(r.interlaced(), false);
    assert_eq!(r.ffmd(), false);
    assert_eq!(r.dpms(), 0x0);
}

#[test]
fn smode2_reads_every_field_of_a_word_of_ones() {
    let r = SMODE2::from_bits(u64::MAX);
    assert_eq!(r.into_bits(), u64::MAX);
    assert_eq!(r.interlaced(), true);
    assert_eq!(r.ffmd(), true);
    assert_eq!(r.dpms(), 0x3);
}

#[test]
fn smode2_holds_what_was_written_field_by_field() {
    let r = SMODE2::new()
        .with_interlaced(true)
        .with_ffmd(true)
        .with_dpms(0x1);
    assert_eq!(r.into_bits(), 0x7);
    assert_eq!(r.interlaced(), true);
    assert_eq!(r.ffmd(), true);
    assert_eq!(r.dpms(), 0x1);
}

#[test]
fn smode2_writes_interlaced_and_nothing_else() {
    let r = SMODE2::from_bits(u64::MAX).with_interlaced(false);
    assert_eq!(r.into_bits(), 0xFFFF_FFFF_FFFF_FFFE);
    assert_eq!(r.interlaced(), false);
    assert_eq!(r.ffmd(), true);
    assert_eq!(r.dpms(), 0x3);
}

#[test]
fn smode2_cuts_an_overlong_dpms() {
    let r = SMODE2::from_bits(0).with_dpms(u8::MAX);
    assert_eq!(r.into_bits(), 0xC);
    assert_eq!(r.dpms(), 0x3);
    let r = SMODE2::from_bits(0).with_dpms(0x5);
    assert_eq!(r.dpms(), 0x1);
}

#[test]
fn smode2_is_stored_at_its_address() {
    let write = SMODE2::from_bits(0x7).store();
    assert_eq!(write, RegisterWrite { address: 0x1200_0020, value: 0x7 });
}

#[test]
fn srfsh_starts_from_its_default() {
    let r = SRFSH::new();
    assert_eq!(r.into_bits(), 0x0);
    assert_eq!(r.srfsh(), 0x0);
}

#[test]
fn srfsh_reads_every_field_of_a_word_of_ones() {
    let r = SRFSH::from_bits(u64::MAX);
    assert_eq!(r.into_bits(), u64::MAX);
    assert_eq!(r.srfsh(), 0xFFFF_FFFF_FFFF_FFFF);
}

#[test]
fn srfsh_holds_what_was_written_field_by_field() {
    let r = SRFSH::new()
        .with_srfsh(0x11E2_0B8F_6B0D_549C);
    assert_eq!(r.into_bits(), 0x11E2_0B8F_6B0D_549C);
    assert_eq!(r.srfsh(), 0x11E2_0B8F_6B0D_549C);
}

#[test]
fn srfsh_writes_srfsh_and_nothing_else() {
    let r = SRFSH::from_bits(u64::MAX).with_srfsh(0x0);
    assert_eq!(r.into_bits(), 0x0);
    assert_eq!(r.srfsh(), 0x0);
}

#[test]
fn srfsh_is_stored_at_its_address() {
    let write = SRFSH::from_bits(0x11E2_0B8F_6B0D_549C).store();
    assert_eq!(write, RegisterWrite { address: 0x1200_0030, value: 0x11E2_0B8F_6B0D_549C });
}

#[test]
fn synch1_starts_from_its_default() {
    let r = SYNCH1::new();
    assert_eq!(r.into_bits(), 0x0);
    assert_eq!(r.hfp(), 0x0);
    assert_eq!(r.hbp(), 0x0);
    assert_eq!(r.hseq(), 0x0);
    assert_eq!(r.hsvs(), 0x0);
    assert_eq!(r.hs(), 0x0);
}

#[test]
fn synch1_reads_every_field_of_a_word_of_ones() {
    let r = SYNCH1::from_bits(u64::MAX);
    assert_eq!(r.into_bits(), u64::MAX);
    assert_eq!(r.hfp(), 0x7FF);
    assert_eq!(r.hbp(), 0x7FF);
    assert_eq!(r.hseq(), 0x7FF);
    assert_eq!(r.hsvs(), 0x7FF);
    assert_eq!(r.hs(), 0x7FF);
}

#[test]
fn synch1_holds_what_was_written_field_by_field() {
    let r = SYNCH1::new()
        .with_hfp(0xBA)
        .with_hbp(0x469)
        .with_hseq(0x366)
        .with_hsvs(0x7A)
        .with_hs(0x69E);
    assert_eq!(r.into_bits(), 0x69_E0F4_D9A3_48BA);
    assert_eq!(r.hfp(), 0xBA);
    assert_eq!(r.hbp(), 0x469);
    assert_eq!(r.hseq(), 0x366);
    assert_eq!(r.hsvs(), 0x7A);
    assert_eq!(r.hs(), 0x69E);
}

#[test]
fn synch1_writes_hs_and_nothing_else() {
    let r = SYNCH1::from_bits(u64::MAX).with_hs(0x0);
    assert_eq!(r.into_bits(), 0xFF80_0FFF_FFFF_FFFF);
    assert_eq!(r.hfp(), 0x7FF);
    assert_eq!(r.hbp(), 0x7FF);
    assert_eq!(r.hseq(), 0x7FF);
    assert_eq!(r.hsvs(), 0x7FF);
    assert_eq!(r.hs(), 0x0);
}

#[test]
fn synch1_cuts_an_overlong_hfp() {
    let r = SYNCH1::from_bits(0).with_hfp(u16::MAX);
    assert_eq!(r.into_bits(), 0x7FF);
    assert_eq!(r.hfp(), 0x7FF);
    let r = SYNCH1::from_bits(0).with_hfp(0x801);
    assert_eq!(r.hfp(), 0x1);
}

#[test]
fn synch1_is_stored_at_its_address() {
    let write = SYNCH1::from_bits(0x69_E0F4_D9A3_48BA).store();
    assert_eq!(write, RegisterWrite { address: 0x1200_0040, value: 0x69_E0F4_D9A3_48BA });
}

#[test]
fn synch2_starts_from_its_default() {
    let r = SYNCH2::new();
    assert_eq!(r.into_bits(), 0x0);
    assert_eq!(r.hf(), 0x0);
    assert_eq!(r.hb(), 0x0);
}

#[test]
fn synch2_reads_every_field_of_a_word_of_ones() {
    let r = SYNCH2::from_bits(u64::MAX);
    assert_eq!(r.into_bits(), u64::MAX);
    assert_eq!(r.hf(), 0x7FF);
    assert_eq!(r.hb(), 0x7FF);
}

#[test]
fn synch2_holds_what_was_written_field_by_field() {
    let r = SYNCH2::new()
        .with_hf(0x795)
        .with_hb(0x1CA);
    assert_eq!(r.into_bits(), 0xE_5795);
    assert_eq!(r.hf(), 0x795);
    assert_eq!(r.hb(), 0x1CA);
}

#[test]
fn synch2_writes_hf_and_nothing_else() {
    let r = SYNCH2::from_bits(u64::MAX).with_hf(0x0);
    assert_eq!(r.into_bits(), 0xFFFF_FFFF_FFFF_F800);
    assert_eq!(r.hf(), 0x0);
    assert_eq!(r.hb(), 0x7FF);
}

#[test]
fn synch2_cuts_an_overlong_hb() {
    let r = SYNCH2::from_bits(0).with_hb(u16::MAX);
    assert_eq!(r.into_bits(), 0x3F_F800);
    assert_eq!(r.hb(), 0x7FF);
    let r = SYNCH2::from_bits(0).with_hb(0x801);
    assert_eq!(r.hb(), 0x1);
}

#[test]
fn synch2_is_stored_at_its_address() {
    let write = SYNCH2::from_bits(0xE_5795).store();
    assert_eq!(write, RegisterWrite { address: 0x1200_0050, value: 0xE_5795 });
}

#[test]
fn syncv_starts_from_its_default() {
    let r = SYNCV::new();
    assert_eq!(r.into_bits(), 0x0);
    assert_eq!(r.vfp(), 0x0);
    assert_eq!(r.vfpe(), 0x0);
    assert_eq!(r.vbp(), 0x0);
    assert_eq!(r.vbpe(), 0x0);
    assert_eq!(r.vdp(), 0x0);
    assert_eq!(r.vs(), 0x0);
}

#[test]
fn syncv_reads_every_field_of_a_word_of_ones() {
    let r = SYNCV::from_bits(u64::MAX);
    assert_eq!(r.into_bits(), u64::MAX);
    assert_eq!(r.vfp(), 0x3FF);
    assert_eq!(r.vfpe(), 0x3FF);
    assert_eq!(r.vbp(), 0xFFF);
    assert_eq!(r.vbpe(), 0xFFF);
    assert_eq!(r.vdp(), 0x7FF);
    assert_eq!(r.vs(), 0x1FF);
}

#[test]
fn syncv_holds_what_was_written_field_by_field() {
    let r = SYNCV::new()
        .with_vfp(0x33)
        .with_vfpe(0x3E8)
        .with_vbp(0x38A)
        .with_vbpe(0xBF)
        .with_vdp(0x475)
        .with_vs(0x1B8);
    assert_eq!(r.into_bits(), 0xDC47_50BF_38AF_A033);
    assert_eq!(r.vfp(), 0x33);
    assert_eq!(r.vfpe(), 0x3E8);
    assert_eq!(r.vbp(), 0x38A);
    assert_eq!(r.vbpe(), 0xBF);
    assert_eq!(r.vdp(), 0x475);
    assert_eq!(r.vs(), 0x1B8);
}

#[test]
fn syncv_writes_vfpe_and_nothing_else() {
    let r = SYNCV::from_bits(u64::MAX).with_vfpe(0x0);
    assert_eq!(r.into_bits(), 0xFFFF_FFFF_FFF0_03FF);
    assert_eq!(r.vfp(), 0x3FF);
    assert_eq!(r.vfpe(), 0x0);
    assert_eq!(r.vbp(), 0xFFF);
    assert_eq!(r.vbpe(), 0xFFF);
    assert_eq!(r.vdp(), 0x7FF);
    assert_eq!(r.vs(), 0x1FF);
}

#[test]
fn syncv_cuts_an_overlong_vbp() {
    let r = SYNCV::from_bits(0).with_vbp(u16::MAX);
    assert_eq!(r.into_bits(), 0xFFF0_0000);
    assert_eq!(r.vbp(), 0xFFF);
    let r = SYNCV::from_bits(0).with_vbp(0x1001);
    assert_eq!(r.vbp(), 0x1);
}

#[test]
fn syncv_is_stored_at_its_address() {
    let write = SYNCV::from_bits(0xDC47_50BF_38AF_A033).store();
    assert_eq!(write, RegisterWrite { address: 0x1200_0060, value: 0xDC47_50BF_38AF_A033 });
}

#[test]
fn dispfb1_starts_from_its_default() {
    let r = DISPFB1::new();
    assert_eq!(r.into_bits(), 0x0);
    assert_eq!(r.fbp(), 0x0);
    assert_eq!(r.fbw(), 0x0);
    assert_eq!(r.psm(), 0x0);
    assert_eq!(r.dbx(), 0x0);
    assert_eq!(r.dby(), 0x0);
}

#[test]
fn dispfb1_reads_every_field_of_a_word_of_ones() {
    let r = DISPFB1::from_bits(u64::MAX);
    assert_eq!(r.into_bits(), u64::MAX);
    assert_eq!(r.fbp(), 0x1FF);
    assert_eq!(r.fbw(), 0x3F);
    assert_eq!(r.psm(), 0x1F);
    assert_eq!(r.dbx(), 0x7FF);
    assert_eq!(r.dby(), 0x7FF);
}

#[test]
fn dispfb1_holds_what_was_written_field_by_field() {
    let r = DISPFB1::new()
        .with_fbp(0xD7)
        .with_fbw(0xA)
        .with_psm(0x12)
        .with_dbx(0xF2)
        .with_dby(0x492);
    assert_eq!(r.into_bits(), 0x24_90F2_0009_14D7);
    assert_eq!(r.fbp(), 0xD7);
    assert_eq!(r.fbw(), 0xA);
    assert_eq!(r.psm(), 0x12);
    assert_eq!(r.dbx(), 0xF2);
    assert_eq!(r.dby(), 0x492);
}

#[test]
fn dispfb1_writes_psm_and_nothing_else() {
    let r = DISPFB1::from_bits(u64::MAX).with_psm(0x0);
    assert_eq!(r.into_bits(), 0xFFFF_FFFF_FFF0_7FFF);
    assert_eq!(r.fbp(), 0x1FF);
    assert_eq!(r.fbw(), 0x3F);
    assert_eq!(r.psm(), 0x0);
    assert_eq!(r.dbx(), 0x7FF);
    assert_eq!(r.dby(), 0x7FF);
}

#[test]
fn dispfb1_cuts_an_overlong_dby() {
    let r = DISPFB1::from_bits(0).with_dby(u16::MAX);
    assert_eq!(r.into_bits(), 0x3F_F800_0000_0000);
    assert_eq!(r.dby(), 0x7FF);
    let r = DISPFB1::from_bits(0).with_dby(0x801);
    assert_eq!(r.dby(), 0x1);
}

#[test]
fn dispfb1_is_stored_at_its_address() {
    let write = DISPFB1::from_bits(0x24_90F2_0009_14D7).store();
    assert_eq!(write, RegisterWrite { address: 0x1200_0070, value: 0x24_90F2_0009_14D7 });
}

#[test]
fn display1_starts_from_its_default() {
    let r = DISPLAY1::new();
    assert_eq!(r.into_bits(), 0x0);
    assert_eq!(r.dx(), 0x0);
    assert_eq!(r.dy(), 0x0);
    assert_eq!(r.magh(), 0x0);
    assert_eq!(r.magv(), 0x0);
    assert_eq!(r.dw(), 0x0);
    assert_eq!(r.dh(), 0x0);
}

#[test]
fn display1_reads_every_field_of_a_word_of_ones() {
    let r = DISPLAY1::from_bits(u64::MAX);
    assert_eq!(r.into_bits(), u64::MAX);
    assert_eq!(r.dx(), 0xFFF);
    assert_eq!(r.dy(), 0x7FF);
    assert_eq!(r.magh(), 0xF);
    assert_eq!(r.magv(), 0x3);
    assert_eq!(r.dw(), 0xFFF);
    assert_eq!(r.dh(), 0x7FF);
}

#[test]
fn display1_holds_what_was_written_field_by_field() {
    let r = DISPLAY1::new()
        .with_dx(0xD0F)
        .with_dy(0x575)
        .with_magh(0x3)
        .with_magv(0x1)
        .with_dw(0x94F)
        .with_dh(0x492);
    assert_eq!(r.into_bits(), 0x9_2529_E9D7_5D0F);
    assert_eq!(r.dx(), 0xD0F);
    assert_eq!(r.dy(), 0x575);
    assert_eq!(r.magh(), 0x3);
    assert_eq!(r.magv(), 0x1);
    assert_eq!(r.dw(), 0x94F);
    assert_eq!(r.dh(), 0x492);
}

#[test]
fn display1_writes_dh_and_nothing_else() {
    let r = DISPLAY1::from_bits(u64::MAX).with_dh(0x0);
    assert_eq!(r.into_bits(), 0xFFF0_01FF_FFFF_FFFF);
    assert_eq!(r.dx(), 0xFFF);
    assert_eq!(r.dy(), 0x7FF);
    assert_eq!(r.magh(), 0xF);
    assert_eq!(r.magv(), 0x3);
    assert_eq!(r.dw(), 0xFFF);
    assert_eq!(r.dh(), 0x0);
}

#[test]
fn display1_cuts_an_overlong_dy() {
    let r = DISPLAY1::from_bits(0).with_dy(u16::MAX);
    assert_eq!(r.into_bits(), 0x7F_F000);
    assert_eq!(r.dy(), 0x7FF);
    let r = DISPLAY1::from_bits(0).with_dy(0x801);
    assert_eq!(r.dy(), 0x1);
}

#[test]
fn display1_is_stored_at_its_address() {
    let write = DISPLAY1::from_bits(0x9_2529_E9D7_5D0F).store();
    assert_eq!(write, RegisterWrite { address: 0x1200_0080, value: 0x9_2529_E9D7_5D0F });
}

#[test]
fn dispfb2_starts_from_its_default() {
    let r = DISPFB2::new();
    assert_eq!(r.into_bits(), 0x0);
    assert_eq!(r.fbp(), 0x0);
    assert_eq!(r.fbw(), 0x0);
    assert_eq!(r.psm(), 0x0);
    assert_eq!(r.dbx(), 0x0);
    assert_eq!(r.dby(), 0x0);
}

#[test]
fn dispfb2_reads_every_field_of_a_word_of_ones() {
    let r = DISPFB2::from_bits(u64::MAX);
    assert_eq!(r.into_bits(), u64::MAX);
    assert_eq!(r.fbp(), 0x1FF);
    assert_eq!(r.fbw(), 0x3F);
    assert_eq!(r.psm(), 0x1F);
    assert_eq!(r.dbx(), 0x7FF);
    assert_eq!(r.dby(), 0x7FF);
}

#[test]
fn dispfb2_holds_what_was_written_field_by_field() {
    let r = DISPFB2::new()
        .with_fbp(0xBF)
        .with_fbw(0x7)
        .with_psm(0x12)
        .with_dbx(0x5B3)
        .with_dby(0x81);
    assert_eq!(r.into_bits(), 0x4_0DB3_0009_0EBF);
    assert_eq!(r.fbp(), 0xBF);
    assert_eq!(r.fbw(), 0x7);
    assert_eq!(r.psm(), 0x12);
    assert_eq!(r.dbx(), 0x5B3);
    assert_eq!(r.dby(), 0x81);
}

#[test]
fn dispfb2_writes_dby_and_nothing_else() {
    let r = DISPFB2::from_bits(u64::MAX).with_dby(0x0);
    assert_eq!(r.into_bits(), 0xFFC0_07FF_FFFF_FFFF);
    assert_eq!(r.fbp(), 0x1FF);
    assert_eq!(r.fbw(), 0x3F);
    assert_eq!(r.psm(), 0x1F);
    assert_eq!(r.dbx(), 0x7FF);
    assert_eq!(r.dby(), 0x0);
}

#[test]
fn dispfb2_cuts_an_overlong_fbp() {
    let r = DISPFB2::from_bits(0).with_fbp(u16::MAX);
    assert_eq!(r.into_bits(), 0x1FF);
    assert_eq!(r.fbp(), 0x1FF);
    let r = DISPFB2::from_bits(0).with_fbp(0x201);
    assert_eq!(r.fbp(), 0x1);
}

#[test]
fn dispfb2_is_stored_at_its_address() {
    let write = DISPFB2::from_bits(0x4_0DB3_0009_0EBF).store();
    assert_eq!(write, RegisterWrite { address: 0x1200_0090, value: 0x4_0DB3_0009_0EBF });
}

#[test]
fn display2_starts_from_its_default() {
    let r = DISPLAY2::new();
    assert_eq!(r.into_bits(), 0x0);
    assert_eq!(r.dx(), 0x0);
    assert_eq!(r.dy(), 0x0);
    assert_eq!(r.magh(), 0x0);
    assert_eq!(r.magv(), 0x0);
    assert_eq!(r.dw(), 0x0);
    assert_eq!(r.dh(), 0x0);
}

#[test]
fn display2_reads_every_field_of_a_word_of_ones() {
    let r = DISPLAY2::from_bits(u64::MAX);
    assert_eq!(r.into_bits(), u64::MAX);
    assert_eq!(r.dx(), 0xFFF);
    assert_eq!(r.dy(), 0x7FF);
    assert_eq!(r.magh(), 0xF);
    assert_eq!(r.magv(), 0x3);
    assert_eq!(r.dw(), 0xFFF);
    assert_eq!(r.dh(), 0x7FF);
}

#[test]
fn display2_holds_what_was_written_field_by_field() {
    let r = DISPLAY2::new()
        .with_dx(0x9E8)
        .with_dy(0x1A6)
        .with_magh(0x8)
        .with_magv(0x3)
        .with_dw(0x882)
        .with_dh(0x36C);
    assert_eq!(r.into_bits(), 0x6_D910_5C1A_69E8);
    assert_eq!(r.dx(), 0x9E8);
    assert_eq!(r.dy(), 0x1A6);
    assert_eq!(r.magh(), 0x8);
    assert_eq!(r.magv(), 0x3);
    assert_eq!(r.dw(), 0x882);
    assert_eq!(r.dh(), 0x36C);
}

#[test]
fn display2_writes_magh_and_nothing_else() {
    let r = DISPLAY2::from_bits(u64::MAX).with_magh(0x0);
    assert_eq!(r.into_bits(), 0xFFFF_FFFF_F87F_FFFF);
    assert_eq!(r.dx(), 0xFFF);
    assert_eq!(r.dy(), 0x7FF);
    assert_eq!(r.magh(), 0x0);
    assert_eq!(r.magv(), 0x3);
    assert_eq!(r.dw(), 0xFFF);
    assert_eq!(r.dh(), 0x7FF);
}

#[test]
fn display2_cuts_an_overlong_magv() {
    let r = DISPLAY2::from_bits(0).with_magv(u16::MAX);
    assert_eq!(r.into_bits(), 0x1800_0000);
    assert_eq!(r.magv(), 0x3);
    let r = DISPLAY2::from_bits(0).with_magv(0x5);
    assert_eq!(r.magv(), 0x1);
}

#[test]
fn display2_is_stored_at_its_address() {
    let write = DISPLAY2::from_bits(0x6_D910_5C1A_69E8).store();
    assert_eq!(write, RegisterWrite { address: 0x1200_00A0, value: 0x6_D910_5C1A_69E8 });
}

#[test]
fn extbuf_starts_from_its_default() {
    let r = EXTBUF::new();
    assert_eq!(r.into_bits(), 0x0);
    assert_eq!(r.exbp(), 0x0);
    assert_eq!(r.exbw(), 0x0);
    assert_eq!(r.fbin(), 0x0);
    assert_eq!(r.wwfmd(), 0x0);
    assert_eq!(r.emoda(), 0x0);
    assert_eq!(r.emodc(), 0x0);
    assert_eq!(r.wdx(), 0x0);
    assert_eq!(r.wdy(), 0x0);
}

#[test]
fn extbuf_reads_every_field_of_a_word_of_ones() {
    let r = EXTBUF::from_bits(u64::MAX);
    assert_eq!(r.into_bits(), u64::MAX);
    assert_eq!(r.exbp(), 0x3FFF);
    assert_eq!(r.exbw(), 0x3F);
    assert_eq!(r.fbin(), 0x3);
    assert_eq!(r.wwfmd(), 0x1);
    assert_eq!(r.emoda(), 0x3);
    assert_eq!(r.emodc(), 0x3);
    assert_eq!(r.wdx(), 0x7FF);
    assert_eq!(r.wdy(), 0x7FF);
}

#[test]
fn extbuf_holds_what_was_written_field_by_field() {
    let r = EXTBUF::new()
        .with_exbp(0x257A)
        .with_exbw(0x3C)
        .with_fbin(0x2)
        .with_wwfmd(0x1)
        .with_emoda(0x2)
        .with_emodc(0x2)
        .with_wdx(0x1FD)
        .with_wdy(0x65B);
    assert_eq!(r.into_bits(), 0x32_D9FD_056F_257A);
    assert_eq!(r.exbp(), 0x257A);
    assert_eq!(r.exbw(), 0x3C);
    assert_eq!(r.fbin(), 0x2);
    assert_eq!(r.wwfmd(), 0x1);
    assert_eq!(r.emoda(), 0x2);
    assert_eq!(r.emodc(), 0x2);
    assert_eq!(r.wdx(), 0x1FD);
    assert_eq!(r.wdy(), 0x65B);
}

#[test]
fn extbuf_writes_fbin_and_nothing_else() {
    let r = EXTBUF::from_bits(u64::MAX).with_fbin(0x0);
    assert_eq!(r.into_bits(), 0xFFFF_FFFF_FFCF_FFFF);
    assert_eq!(r.exbp(), 0x3FFF);
    assert_eq!(r.exbw(), 0x3F);
    assert_eq!(r.fbin(), 0x0);
    assert_eq!(r.wwfmd(), 0x1);
    assert_eq!(r.emoda(), 0x3);
    assert_eq!(r.emodc(), 0x3);
    assert_eq!(r.wdx(), 0x7FF);
    assert_eq!(r.wdy(), 0x7FF);
}

#[test]
fn extbuf_cuts_an_overlong_wwfmd() {
    let r = EXTBUF::from_bits(0).with_wwfmd(u8::MAX);
    assert_eq!(r.into_bits(), 0x40_0000);
    assert_eq!(r.wwfmd(), 0x1);
    let r = EXTBUF::from_bits(0).with_wwfmd(0x3);
    assert_eq!(r.wwfmd(), 0x1);
}

#[test]
fn extbuf_is_stored_at_its_address() {
    let write = EXTBUF::from_bits(0x32_D9FD_056F_257A).store();
    assert_eq!(write, RegisterWrite { address: 0x1200_00B0, value: 0x32_D9FD_056F_257A });
}

#[test]
fn extdata_starts_from_its_default() {
    let r = EXTDATA::new();
    assert_eq!(r.into_bits(), 0x0);
    assert_eq!(r.sx(), 0x0);
    assert_eq!(r.sy(), 0x0);
    assert_eq!(r.smph(), 0x0);
    assert_eq!(r.smpv(), 0x0);
    assert_eq!(r.ww(), 0x0);
    assert_eq!(r.wh(), 0x0);
}

#[test]
fn extdata_reads_every_field_of_a_word_of_ones() {
    let r = EXTDATA::from_bits(u64::MAX);
    assert_eq!(r.into_bits(), u64::MAX);
    assert_eq!(r.sx(), 0xFFF);
    assert_eq!(r.sy(), 0x7FF);
    assert_eq!(r.smph(), 0xF);
    assert_eq!(r.smpv(), 0x3);
    assert_eq!(r.ww(), 0xFFF);
    assert_eq!(r.wh(), 0x7FF);
}

#[test]
fn extdata_holds_what_was_written_field_by_field() {
    let r = EXTDATA::new()
        .with_sx(0x150)
        .with_sy(0x499)
        .with_smph(0x5)
        .with_smpv(0x3)
        .with_ww(0x7EC)
        .with_wh(0x701);
    assert_eq!(r.into_bits(), 0x70_17EC_1AC9_9150);
    assert_eq!(r.sx(), 0x150);
    assert_eq!(r.sy(), 0x499);
    assert_eq!(r.smph(), 0x5);
    assert_eq!(r.smpv(), 0x3);
    assert_eq!(r.ww(), 0x7EC);
    assert_eq!(r.wh(), 0x701);
}

#[test]
fn extdata_writes_smph_and_nothing_else() {
    let r = EXTDATA::from_bits(u64::MAX).with_smph(0x0);
    assert_eq!(r.into_bits(), 0xFFFF_FFFF_F87F_FFFF);
    assert_eq!(r.sx(), 0xFFF);
    assert_eq!(r.sy(), 0x7FF);
    assert_eq!(r.smph(), 0x0);
    assert_eq!(r.smpv(), 0x3);
    assert_eq!(r.ww(), 0xFFF);
    assert_eq!(r.wh(), 0x7FF);
}

#[test]
fn extdata_cuts_an_overlong_wh() {
    let r = EXTDATA::from_bits(0).with_wh(u16::MAX);
    assert_eq!(r.into_bits(), 0x7F_F000_0000_0000);
    assert_eq!(r.wh(), 0x7FF);
    let r = EXTDATA::from_bits(0).with_wh(0x801);
    assert_eq!(r.wh(), 0x1);
}

#[test]
fn extdata_is_stored_at_its_address() {
    let write = EXTDATA::from_bits(0x70_17EC_1AC9_9150).store();
    assert_eq!(write, RegisterWrite { address: 0x1200_00C0, value: 0x70_17EC_1AC9_9150 });
}

#[test]
fn extwrite_starts_from_its_default() {
    let r = EXTWRITE::new();
    assert_eq!(r.into_bits(), 0x0);
    assert_eq!(r.write(), false);
}

#[test]
fn extwrite_reads_every_field_of_a_word_of_ones() {
    let r = EXTWRITE::from_bits(u64::MAX);
    assert_eq!(r.into_bits(), u64::MAX);
    assert_eq!(r.write(), true);
}

#[test]
fn extwrite_holds_what_was_written_field_by_field() {
    let r = EXTWRITE::new()
        .with_write(true);
    assert_eq!(r.into_bits(), 0x1);
    assert_eq!(r.write(), true);
}

#[test]
fn extwrite_writes_write_and_nothing_else() {
    let r = EXTWRITE::from_bits(u64::MAX).with_write(false);
    assert_eq!(r.into_bits(), 0xFFFF_FFFF_FFFF_FFFE);
    assert_eq!(r.write(), false);
}

#[test]
fn extwrite_is_stored_at_its_address() {
    let write = EXTWRITE::from_bits(0x1).store();
    assert_eq!(write, RegisterWrite { address: 0x1200_00D0, value: 0x1 });
}

#[test]
fn bgcolor_starts_from_its_default() {
    let r = BGCOLOR::new();
    assert_eq!(r.into_bits(), 0x0);
    assert_eq!(r.r(), 0x0);
    assert_eq!(r.g(), 0x0);
    assert_eq!(r.b(), 0x0);
}

#[test]
fn bgcolor_reads_every_field_of_a_word_of_ones() {
    let r = BGCOLOR::from_bits(u64::MAX);
    assert_eq!(r.into_bits(), u64::MAX);
    assert_eq!(r.r(), 0xFF);
    assert_eq!(r.g(), 0xFF);
    assert_eq!(r.b(), 0xFF);
}

#[test]
fn bgcolor_holds_what_was_written_field_by_field() {
    let r = BGCOLOR::new()
        .with_r(0x4A)
        .with_g(0x9C)
        .with_b(0xFB);
    assert_eq!(r.into_bits(), 0xFB_9C4A);
    assert_eq!(r.r(), 0x4A);
    assert_eq!(r.g(), 0x9C);
    assert_eq!(r.b(), 0xFB);
}

#[test]
fn bgcolor_writes_r_and_nothing_else() {
    let r = BGCOLOR::from_bits(u64::MAX).with_r(0x0);
    assert_eq!(r.into_bits(), 0xFFFF_FFFF_FFFF_FF00);
    assert_eq!(r.r(), 0x0);
    assert_eq!(r.g(), 0xFF);
    assert_eq!(r.b(), 0xFF);
}

#[test]
fn bgcolor_is_stored_at_its_address() {
    let write = BGCOLOR::from_bits(0xFB_9C4A).store();
    assert_eq!(write, RegisterWrite { address: 0x1200_00E0, value: 0xFB_9C4A });
}

#[test]
fn csr_starts_from_its_default() {
    let r = CSR::new();
    assert_eq!(r.into_bits(), 0x0);
    assert_eq!(r.signal(), 0x0);
    assert_eq!(r.finish(), 0x0);
    assert_eq!(r.hsint(), 0x0);
    assert_eq!(r.vsint(), 0x0);
    assert_eq!(r.edwint(), 0x0);
    assert_eq!(r.flush(), 0x0);
    assert_eq!(r.reset(), 0x0);
    assert_eq!(r.nfield(), 0x0);
    assert_eq!(r.field(), 0x0);
    assert_eq!(r.fifo(), 0x0);
    assert_eq!(r.rev(), 0x0);
    assert_eq!(r.id(), 0x0);
}

#[test]
fn csr_reads_every_field_of_a_word_of_ones() {
    let r = CSR::from_bits(u64::MAX);
    assert_eq!(r.into_bits(), u64::MAX);
    assert_eq!(r.signal(), 0x1);
    assert_eq!(r.finish(), 0x1);
    assert_eq!(r.hsint(), 0x1);
    assert_eq!(r.vsint(), 0x1);
    assert_eq!(r.edwint(), 0x1);
    assert_eq!(r.flush(), 0x1);
    assert_eq!(r.reset(), 0x1);
    assert_eq!(r.nfield(), 0x1);
    assert_eq!(r.field(), 0x1);
    assert_eq!(r.fifo(), 0x3);
    assert_eq!(r.rev(), 0xFF);
    assert_eq!(r.id(), 0xFF);
}

#[test]
fn csr_holds_what_was_written_field_by_field() {
    let r = CSR::new()
        .with_signal(0x1)
        .with_finish(0x1)
        .with_hsint(0x1)
        .with_vsint(0x1)
        .with_edwint(0x1)
        .with_flush(0x1)
        .with_reset(0x1)
        .with_nfield(0x1)
        .with_field(0x1)
        .with_fifo(0x1)
        .with_rev(0x84)
        .with_id(0x6C);
    assert_eq!(r.into_bits(), 0x6C84_731F);
    assert_eq!(r.signal(), 0x1);
    assert_eq!(r.finish(), 0x1);
    assert_eq!(r.hsint(), 0x1);
    assert_eq!(r.vsint(), 0x1);
    assert_eq!(r.edwint(), 0x1);
    assert_eq!(r.flush(), 0x1);
    assert_eq!(r.reset(), 0x1);
    assert_eq!(r.nfield(), 0x1);
    assert_eq!(r.field(), 0x1);
    assert_eq!(r.fifo(), 0x1);
    assert_eq!(r.rev(), 0x84);
    assert_eq!(r.id(), 0x6C);
}

#[test]
fn csr_writes_hsint_and_nothing_else() {
    let r = CSR::from_bits(u64::MAX).with_hsint(0x0);
    assert_eq!(r.into_bits(), 0xFFFF_FFFF_FFFF_FFFB);
    assert_eq!(r.signal(), 0x1);
    assert_eq!(r.finish(), 0x1);
    assert_eq!(r.hsint(), 0x0);
    assert_eq!(r.vsint(), 0x1);
    assert_eq!(r.edwint(), 0x1);
    assert_eq!(r.flush(), 0x1);
    assert_eq!(r.reset(), 0x1);
    assert_eq!(r.nfield(), 0x1);
    assert_eq!(r.field(), 0x1);
    assert_eq!(r.fifo(), 0x3);
    assert_eq!(r.rev(), 0xFF);
    assert_eq!(r.id(), 0xFF);
}

#[test]
fn csr_cuts_an_overlong_flush() {
    let r = CSR::from_bits(0).with_flush(u8::MAX);
    assert_eq!(r.into_bits(), 0x100);
    assert_eq!(r.flush(), 0x1);
    let r = CSR::from_bits(0).with_flush(0x3);
    assert_eq!(r.flush(), 0x1);
}

#[test]
fn csr_is_stored_at_its_address() {
    let write = CSR::from_bits(0x6C84_731F).store();
    assert_eq!(write, RegisterWrite { address: 0x1200_1000, value: 0x6C84_731F });
}

#[test]
fn csr_is_loaded_bit_for_bit() {
    let r = CSR::load(0x6C84_731F);
    assert_eq!(r.into_bits(), 0x6C84_731F);
    assert_eq!(r.signal(), 0x1);
    assert_eq!(r.finish(), 0x1);
    assert_eq!(r.hsint(), 0x1);
    assert_eq!(r.vsint(), 0x1);
    assert_eq!(r.edwint(), 0x1);
    assert_eq!(r.flush(), 0x1);
    assert_eq!(r.reset(), 0x1);
    assert_eq!(r.nfield(), 0x1);
    assert_eq!(r.field(), 0x1);
    assert_eq!(r.fifo(), 0x1);
    assert_eq!(r.rev(), 0x84);
    assert_eq!(r.id(), 0x6C);
}

#[test]
fn imr_starts_from_its_default() {
    let r = IMR::new();
    assert_eq!(r.into_bits(), 0x3000);
    assert_eq!(r.sigmsk(), 0x0);
    assert_eq!(r.finmsk(), 0x0);
    assert_eq!(r.hsmsk(), 0x0);
    assert_eq!(r.vsmsk(), 0x0);
}

#[test]
fn imr_reads_every_field_of_a_word_of_ones() {
    let r = IMR::from_bits(u64::MAX);
    assert_eq!(r.into_bits(), u64::MAX);
    assert_eq!(r.sigmsk(), 0x1);
    assert_eq!(r.finmsk(), 0x1);
    assert_eq!(r.hsmsk(), 0x1);
    assert_eq!(r.vsmsk(), 0x1);
}

#[test]
fn imr_holds_what_was_written_field_by_field() {
    let r = IMR::new()
        .with_sigmsk(0x1)
        .with_finmsk(0x1)
        .with_hsmsk(0x1)
        .with_vsmsk(0x1);
    assert_eq!(r.into_bits(), 0x3F00);
    assert_eq!(r.sigmsk(), 0x1);
    assert_eq!(r.finmsk(), 0x1);
    assert_eq!(r.hsmsk(), 0x1);
    assert_eq!(r.vsmsk(), 0x1);
}

#[test]
fn imr_writes_finmsk_and_nothing_else() {
    let r = IMR::from_bits(u64::MAX).with_finmsk(0x0);
    assert_eq!(r.into_bits(), 0xFFFF_FFFF_FFFF_FDFF);
    assert_eq!(r.sigmsk(), 0x1);
    assert_eq!(r.finmsk(), 0x0);
    assert_eq!(r.hsmsk(), 0x1);
    assert_eq!(r.vsmsk(), 0x1);
}

#[test]
fn imr_cuts_an_overlong_vsmsk() {
    let r = IMR::from_bits(0).with_vsmsk(u8::MAX);
    assert_eq!(r.into_bits(), 0x800);
    assert_eq!(r.vsmsk(), 0x1);
    let r = IMR::from_bits(0).with_vsmsk(0x3);
    assert_eq!(r.vsmsk(), 0x1);
}

#[test]
fn imr_is_stored_at_its_address() {
    let write = IMR::from_bits(0x3F00).store();
    assert_eq!(write, RegisterWrite { address: 0x1200_1010, value: 0x3F00 });
}

#[test]
fn busdir_starts_from_its_default() {
    let r = BUSDIR::new();
    assert_eq!(r.into_bits(), 0x0);
    assert_eq!(r.dir(), 0x0);
}

#[test]
fn busdir_reads_every_field_of_a_word_of_ones() {
    let r = BUSDIR::from_bits(u64::MAX);
    assert_eq!(r.into_bits(), u64::MAX);
    assert_eq!(r.dir(), 0x1);
}

#[test]
fn busdir_holds_what_was_written_field_by_field() {
    let r = BUSDIR::new()
        .with_dir(0x1);
    assert_eq!(r.into_bits(), 0x1);
    assert_eq!(r.dir(), 0x1);
}

#[test]
fn busdir_writes_dir_and_nothing_else() {
    let r = BUSDIR::from_bits(u64::MAX).with_dir(0x0);
    assert_eq!(r.into_bits(), 0xFFFF_FFFF_FFFF_FFFE);
    assert_eq!(r.dir(), 0x0);
}

#[test]
fn busdir_cuts_an_overlong_dir() {
    let r = BUSDIR::from_bits(0).with_dir(u8::MAX);
    assert_eq!(r.into_bits(), 0x1);
    assert_eq!(r.dir(), 0x1);
    let r = BUSDIR::from_bits(0).with_dir(0x3);
    assert_eq!(r.dir(), 0x1);
}

#[test]
fn busdir_is_stored_at_its_address() {
    let write = BUSDIR::from_bits(0x1).store();
    assert_eq!(write, RegisterWrite { address: 0x1200_1040, value: 0x1 });
}

#[test]
fn siglblid_starts_from_its_default() {
    let r = SIGLBLID::new();
    assert_eq!(r.into_bits(), 0x0);
    assert_eq!(r.siglblid(), 0x0);
    assert_eq!(r.lblid(), 0x0);
}

#[test]
fn siglblid_reads_every_field_of_a_word_of_ones() {
    let r = SIGLBLID::from_bits(u64::MAX);
    assert_eq!(r.into_bits(), u64::MAX);
    assert_eq!(r.siglblid(), 0xFFFF_FFFF);
    assert_eq!(r.lblid(), 0xFFFF_FFFF);
}

#[test]
fn siglblid_holds_what_was_written_field_by_field() {
    let r = SIGLBLID::new()
        .with_siglblid(0xF646_E1F5)
        .with_lblid(0xAB10_31D1);
    assert_eq!(r.into_bits(), 0xAB10_31D1_F646_E1F5);
    assert_eq!(r.siglblid(), 0xF646_E1F5);
    assert_eq!(r.lblid(), 0xAB10_31D1);
}

#[test]
fn siglblid_writes_siglblid_and_nothing_else() {
    let r = SIGLBLID::from_bits(u64::MAX).with_siglblid(0x0);
    assert_eq!(r.into_bits(), 0xFFFF_FFFF_0000_0000);
    assert_eq!(r.siglblid(), 0x0);
    assert_eq!(r.lblid(), 0xFFFF_FFFF);
}

#[test]
fn siglblid_is_stored_at_its_address() {
    let write = SIGLBLID::from_bits(0xAB10_31D1_F646_E1F5).store();
    assert_eq!(write, RegisterWrite { address: 0x1200_1080, value: 0xAB10_31D1_F646_E1F5 });
}

#[test]
fn siglblid_is_loaded_bit_for_bit() {
    let r = SIGLBLID::load(0xAB10_31D1_F646_E1F5);
    assert_eq!(r.into_bits(), 0xAB10_31D1_F646_E1F5);
    assert_eq!(r.siglblid(), 0xF646_E1F5);
    assert_eq!(r.lblid(), 0xAB10_31D1);
}
