//! Laws about the form a VM configuration update sends.
use vstd::prelude::*;
use crate::text::decimal;
use crate::tools::proxmox::{opt_flag, opt_num32, opt_pair, opt_text, update_form, FloatText, VmConfigUpdate};

verus! {

/// One when `b` holds, else zero.
#[verifier::opaque]
pub open spec fn one_if(b: bool) -> nat {
    if b {
        1
    } else {
        0
    }
}

/// The number of fields an update sets.
pub open spec fn fields_set(u: VmConfigUpdate) -> nat {
    one_if(u.cores is Some) + one_if(u.sockets is Some) + one_if(u.memory is Some) + one_if(u.balloon is Some) + one_if(u.cpu_type is Some) + one_if(u.name is Some) + one_if(u.description is Some) + one_if(u.onboot is Some) + one_if(u.ciuser is Some) + one_if(u.cipassword is Some) + one_if(u.sshkeys is Some) + one_if(u.ipconfig0 is Some) + one_if(u.ipconfig1 is Some) + one_if(u.nameserver is Some) + one_if(u.searchdomain is Some) + one_if(u.swap is Some) + one_if(u.cpulimit is Some) + one_if(u.unprivileged is Some) + one_if(u.boot is Some) + one_if(u.ostype is Some) + one_if(u.machine is Some) + one_if(u.bios is Some) + one_if(u.net0 is Some) + one_if(u.net1 is Some) + one_if(u.scsi0 is Some) + one_if(u.virtio0 is Some) + one_if(u.delete_keys is Some)
}

proof fn lemma_in_left(a: Seq<(Seq<char>, Seq<char>)>, b: Seq<(Seq<char>, Seq<char>)>, x: (Seq<char>, Seq<char>))
    requires
        a.contains(x),
    ensures
        (a + b).contains(x),
{
    let i = choose|i: int| 0 <= i < a.len() && a[i] == x;
    assert((a + b)[i] == x);
}

proof fn lemma_in_right(a: Seq<(Seq<char>, Seq<char>)>, b: Seq<(Seq<char>, Seq<char>)>, x: (Seq<char>, Seq<char>))
    requires
        b.contains(x),
    ensures
        (a + b).contains(x),
{
    let i = choose|i: int| 0 <= i < b.len() && b[i] == x;
    assert((a + b)[a.len() + i] == x);
}

#[verifier::spinoff_prover]
proof fn lemma_update_form_members_00(u: VmConfigUpdate)
    ensures
        u.cores matches Some(v) ==> update_form(u).contains(("cores"@, decimal(v as nat))),
        u.sockets matches Some(v) ==> update_form(u).contains(("sockets"@, decimal(v as nat))),
        u.memory matches Some(v) ==> update_form(u).contains(("memory"@, decimal(v as nat))),
{
    let s0 = opt_pair("cores"@, opt_num32(u.cores));
    let p1 = opt_pair("sockets"@, opt_num32(u.sockets));
    let s1 = s0 + p1;
    let p2 = opt_pair("memory"@, opt_num32(u.memory));
    let s2 = s1 + p2;
    let p3 = opt_pair("balloon"@, opt_num32(u.balloon));
    let s3 = s2 + p3;
    let p4 = opt_pair("cpu"@, opt_text(u.cpu_type));
    let s4 = s3 + p4;
    let p5 = opt_pair("name"@, opt_text(u.name));
    let s5 = s4 + p5;
    let p6 = opt_pair("description"@, opt_text(u.description));
    let s6 = s5 + p6;
    let p7 = opt_pair("onboot"@, opt_flag(u.onboot));
    let s7 = s6 + p7;
    let p8 = opt_pair("ciuser"@, opt_text(u.ciuser));
    let s8 = s7 + p8;
    let p9 = opt_pair("cipassword"@, opt_text(u.cipassword));
    let s9 = s8 + p9;
    let p10 = opt_pair("sshkeys"@, opt_text(u.sshkeys));
    let s10 = s9 + p10;
    let p11 = opt_pair("ipconfig0"@, opt_text(u.ipconfig0));
    let s11 = s10 + p11;
    let p12 = opt_pair("ipconfig1"@, opt_text(u.ipconfig1));
    let s12 = s11 + p12;
    let p13 = opt_pair("nameserver"@, opt_text(u.nameserver));
    let s13 = s12 + p13;
    let p14 = opt_pair("searchdomain"@, opt_text(u.searchdomain));
    let s14 = s13 + p14;
    let p15 = opt_pair("swap"@, opt_num32(u.swap));
    let s15 = s14 + p15;
    let p16 = opt_pair("cpulimit"@, match u.cpulimit { Some(c) => Some(c.display@), None => None });
    let s16 = s15 + p16;
    let p17 = opt_pair("unprivileged"@, opt_flag(u.unprivileged));
    let s17 = s16 + p17;
    let p18 = opt_pair("boot"@, opt_text(u.boot));
    let s18 = s17 + p18;
    let p19 = opt_pair("ostype"@, opt_text(u.ostype));
    let s19 = s18 + p19;
    let p20 = opt_pair("machine"@, opt_text(u.machine));
    let s20 = s19 + p20;
    let p21 = opt_pair("bios"@, opt_text(u.bios));
    let s21 = s20 + p21;
    let p22 = opt_pair("net0"@, opt_text(u.net0));
    let s22 = s21 + p22;
    let p23 = opt_pair("net1"@, opt_text(u.net1));
    let s23 = s22 + p23;
    let p24 = opt_pair("scsi0"@, opt_text(u.scsi0));
    let s24 = s23 + p24;
    let p25 = opt_pair("virtio0"@, opt_text(u.virtio0));
    let s25 = s24 + p25;
    let p26 = opt_pair("delete"@, opt_text(u.delete_keys));
    let s26 = s25 + p26;
    assert(s26 == update_form(u));
    if let Some(v) = u.cores {
        let x = ("cores"@, decimal(v as nat));
        assert(s0.contains(x)) by {
            assert(s0[0] == x);
        }
        lemma_in_left(s0, p1, x);
        lemma_in_left(s1, p2, x);
        lemma_in_left(s2, p3, x);
        lemma_in_left(s3, p4, x);
        lemma_in_left(s4, p5, x);
        lemma_in_left(s5, p6, x);
        lemma_in_left(s6, p7, x);
        lemma_in_left(s7, p8, x);
        lemma_in_left(s8, p9, x);
        lemma_in_left(s9, p10, x);
        lemma_in_left(s10, p11, x);
        lemma_in_left(s11, p12, x);
        lemma_in_left(s12, p13, x);
        lemma_in_left(s13, p14, x);
        lemma_in_left(s14, p15, x);
        lemma_in_left(s15, p16, x);
        lemma_in_left(s16, p17, x);
        lemma_in_left(s17, p18, x);
        lemma_in_left(s18, p19, x);
        lemma_in_left(s19, p20, x);
        lemma_in_left(s20, p21, x);
        lemma_in_left(s21, p22, x);
        lemma_in_left(s22, p23, x);
        lemma_in_left(s23, p24, x);
        lemma_in_left(s24, p25, x);
        lemma_in_left(s25, p26, x);
    }
    if let Some(v) = u.sockets {
        let x = ("sockets"@, decimal(v as nat));
        assert(p1.contains(x)) by {
            assert(p1[0] == x);
        }
        lemma_in_right(s0, p1, x);
        lemma_in_left(s1, p2, x);
        lemma_in_left(s2, p3, x);
        lemma_in_left(s3, p4, x);
        lemma_in_left(s4, p5, x);
        lemma_in_left(s5, p6, x);
        lemma_in_left(s6, p7, x);
        lemma_in_left(s7, p8, x);
        lemma_in_left(s8, p9, x);
        lemma_in_left(s9, p10, x);
        lemma_in_left(s10, p11, x);
        lemma_in_left(s11, p12, x);
        lemma_in_left(s12, p13, x);
        lemma_in_left(s13, p14, x);
        lemma_in_left(s14, p15, x);
        lemma_in_left(s15, p16, x);
        lemma_in_left(s16, p17, x);
        lemma_in_left(s17, p18, x);
        lemma_in_left(s18, p19, x);
        lemma_in_left(s19, p20, x);
        lemma_in_left(s20, p21, x);
        lemma_in_left(s21, p22, x);
        lemma_in_left(s22, p23, x);
        lemma_in_left(s23, p24, x);
        lemma_in_left(s24, p25, x);
        lemma_in_left(s25, p26, x);
    }
    if let Some(v) = u.memory {
        let x = ("memory"@, decimal(v as nat));
        assert(p2.contains(x)) by {
            assert(p2[0] == x);
        }
        lemma_in_right(s1, p2, x);
        lemma_in_left(s2, p3, x);
        lemma_in_left(s3, p4, x);
        lemma_in_left(s4, p5, x);
        lemma_in_left(s5, p6, x);
        lemma_in_left(s6, p7, x);
        lemma_in_left(s7, p8, x);
        lemma_in_left(s8, p9, x);
        lemma_in_left(s9, p10, x);
        lemma_in_left(s10, p11, x);
        lemma_in_left(s11, p12, x);
        lemma_in_left(s12, p13, x);
        lemma_in_left(s13, p14, x);
        lemma_in_left(s14, p15, x);
        lemma_in_left(s15, p16, x);
        lemma_in_left(s16, p17, x);
        lemma_in_left(s17, p18, x);
        lemma_in_left(s18, p19, x);
        lemma_in_left(s19, p20, x);
        lemma_in_left(s20, p21, x);
        lemma_in_left(s21, p22, x);
        lemma_in_left(s22, p23, x);
        lemma_in_left(s23, p24, x);
        lemma_in_left(s24, p25, x);
        lemma_in_left(s25, p26, x);
    }
}

#[verifier::spinoff_prover]
proof fn lemma_update_form_members_01(u: VmConfigUpdate)
    ensures
        u.balloon matches Some(v) ==> update_form(u).contains(("balloon"@, decimal(v as nat))),
        u.cpu_type matches Some(v) ==> update_form(u).contains(("cpu"@, v@)),
        u.name matches Some(v) ==> update_form(u).contains(("name"@, v@)),
{
    let s0 = opt_pair("cores"@, opt_num32(u.cores));
    let p1 = opt_pair("sockets"@, opt_num32(u.sockets));
    let s1 = s0 + p1;
    let p2 = opt_pair("memory"@, opt_num32(u.memory));
    let s2 = s1 + p2;
    let p3 = opt_pair("balloon"@, opt_num32(u.balloon));
    let s3 = s2 + p3;
    let p4 = opt_pair("cpu"@, opt_text(u.cpu_type));
    let s4 = s3 + p4;
    let p5 = opt_pair("name"@, opt_text(u.name));
    let s5 = s4 + p5;
    let p6 = opt_pair("description"@, opt_text(u.description));
    let s6 = s5 + p6;
    let p7 = opt_pair("onboot"@, opt_flag(u.onboot));
    let s7 = s6 + p7;
    let p8 = opt_pair("ciuser"@, opt_text(u.ciuser));
    let s8 = s7 + p8;
    let p9 = opt_pair("cipassword"@, opt_text(u.cipassword));
    let s9 = s8 + p9;
    let p10 = opt_pair("sshkeys"@, opt_text(u.sshkeys));
    let s10 = s9 + p10;
    let p11 = opt_pair("ipconfig0"@, opt_text(u.ipconfig0));
    let s11 = s10 + p11;
    let p12 = opt_pair("ipconfig1"@, opt_text(u.ipconfig1));
    let s12 = s11 + p12;
    let p13 = opt_pair("nameserver"@, opt_text(u.nameserver));
    let s13 = s12 + p13;
    let p14 = opt_pair("searchdomain"@, opt_text(u.searchdomain));
    let s14 = s13 + p14;
    let p15 = opt_pair("swap"@, opt_num32(u.swap));
    let s15 = s14 + p15;
    let p16 = opt_pair("cpulimit"@, match u.cpulimit { Some(c) => Some(c.display@), None => None });
    let s16 = s15 + p16;
    let p17 = opt_pair("unprivileged"@, opt_flag(u.unprivileged));
    let s17 = s16 + p17;
    let p18 = opt_pair("boot"@, opt_text(u.boot));
    let s18 = s17 + p18;
    let p19 = opt_pair("ostype"@, opt_text(u.ostype));
    let s19 = s18 + p19;
    let p20 = opt_pair("machine"@, opt_text(u.machine));
    let s20 = s19 + p20;
    let p21 = opt_pair("bios"@, opt_text(u.bios));
    let s21 = s20 + p21;
    let p22 = opt_pair("net0"@, opt_text(u.net0));
    let s22 = s21 + p22;
    let p23 = opt_pair("net1"@, opt_text(u.net1));
    let s23 = s22 + p23;
    let p24 = opt_pair("scsi0"@, opt_text(u.scsi0));
    let s24 = s23 + p24;
    let p25 = opt_pair("virtio0"@, opt_text(u.virtio0));
    let s25 = s24 + p25;
    let p26 = opt_pair("delete"@, opt_text(u.delete_keys));
    let s26 = s25 + p26;
    assert(s26 == update_form(u));
    if let Some(v) = u.balloon {
        let x = ("balloon"@, decimal(v as nat));
        assert(p3.contains(x)) by {
            assert(p3[0] == x);
        }
        lemma_in_right(s2, p3, x);
        lemma_in_left(s3, p4, x);
        lemma_in_left(s4, p5, x);
        lemma_in_left(s5, p6, x);
        lemma_in_left(s6, p7, x);
        lemma_in_left(s7, p8, x);
        lemma_in_left(s8, p9, x);
        lemma_in_left(s9, p10, x);
        lemma_in_left(s10, p11, x);
        lemma_in_left(s11, p12, x);
        lemma_in_left(s12, p13, x);
        lemma_in_left(s13, p14, x);
        lemma_in_left(s14, p15, x);
        lemma_in_left(s15, p16, x);
        lemma_in_left(s16, p17, x);
        lemma_in_left(s17, p18, x);
        lemma_in_left(s18, p19, x);
        lemma_in_left(s19, p20, x);
        lemma_in_left(s20, p21, x);
        lemma_in_left(s21, p22, x);
        lemma_in_left(s22, p23, x);
        lemma_in_left(s23, p24, x);
        lemma_in_left(s24, p25, x);
        lemma_in_left(s25, p26, x);
    }
    if let Some(v) = u.cpu_type {
        let x = ("cpu"@, v@);
        assert(p4.contains(x)) by {
            assert(p4[0] == x);
        }
        lemma_in_right(s3, p4, x);
        lemma_in_left(s4, p5, x);
        lemma_in_left(s5, p6, x);
        lemma_in_left(s6, p7, x);
        lemma_in_left(s7, p8, x);
        lemma_in_left(s8, p9, x);
        lemma_in_left(s9, p10, x);
        lemma_in_left(s10, p11, x);
        lemma_in_left(s11, p12, x);
        lemma_in_left(s12, p13, x);
        lemma_in_left(s13, p14, x);
        lemma_in_left(s14, p15, x);
        lemma_in_left(s15, p16, x);
        lemma_in_left(s16, p17, x);
        lemma_in_left(s17, p18, x);
        lemma_in_left(s18, p19, x);
        lemma_in_left(s19, p20, x);
        lemma_in_left(s20, p21, x);
        lemma_in_left(s21, p22, x);
        lemma_in_left(s22, p23, x);
        lemma_in_left(s23, p24, x);
        lemma_in_left(s24, p25, x);
        lemma_in_left(s25, p26, x);
    }
    if let Some(v) = u.name {
        let x = ("name"@, v@);
        assert(p5.contains(x)) by {
            assert(p5[0] == x);
        }
        lemma_in_right(s4, p5, x);
        lemma_in_left(s5, p6, x);
        lemma_in_left(s6, p7, x);
        lemma_in_left(s7, p8, x);
        lemma_in_left(s8, p9, x);
        lemma_in_left(s9, p10, x);
        lemma_in_left(s10, p11, x);
        lemma_in_left(s11, p12, x);
        lemma_in_left(s12, p13, x);
        lemma_in_left(s13, p14, x);
        lemma_in_left(s14, p15, x);
        lemma_in_left(s15, p16, x);
        lemma_in_left(s16, p17, x);
        lemma_in_left(s17, p18, x);
        lemma_in_left(s18, p19, x);
        lemma_in_left(s19, p20, x);
        lemma_in_left(s20, p21, x);
        lemma_in_left(s21, p22, x);
        lemma_in_left(s22, p23, x);
        lemma_in_left(s23, p24, x);
        lemma_in_left(s24, p25, x);
        lemma_in_left(s25, p26, x);
    }
}

#[verifier::spinoff_prover]
proof fn lemma_update_form_members_02(u: VmConfigUpdate)
    ensures
        u.description matches Some(v) ==> update_form(u).contains(("description"@, v@)),
        u.onboot matches Some(v) ==> update_form(u).contains(("onboot"@, (if v { "1"@ } else { "0"@ }))),
        u.ciuser matches Some(v) ==> update_form(u).contains(("ciuser"@, v@)),
{
    let s0 = opt_pair("cores"@, opt_num32(u.cores));
    let p1 = opt_pair("sockets"@, opt_num32(u.sockets));
    let s1 = s0 + p1;
    let p2 = opt_pair("memory"@, opt_num32(u.memory));
    let s2 = s1 + p2;
    let p3 = opt_pair("balloon"@, opt_num32(u.balloon));
    let s3 = s2 + p3;
    let p4 = opt_pair("cpu"@, opt_text(u.cpu_type));
    let s4 = s3 + p4;
    let p5 = opt_pair("name"@, opt_text(u.name));
    let s5 = s4 + p5;
    let p6 = opt_pair("description"@, opt_text(u.description));
    let s6 = s5 + p6;
    let p7 = opt_pair("onboot"@, opt_flag(u.onboot));
    let s7 = s6 + p7;
    let p8 = opt_pair("ciuser"@, opt_text(u.ciuser));
    let s8 = s7 + p8;
    let p9 = opt_pair("cipassword"@, opt_text(u.cipassword));
    let s9 = s8 + p9;
    let p10 = opt_pair("sshkeys"@, opt_text(u.sshkeys));
    let s10 = s9 + p10;
    let p11 = opt_pair("ipconfig0"@, opt_text(u.ipconfig0));
    let s11 = s10 + p11;
    let p12 = opt_pair("ipconfig1"@, opt_text(u.ipconfig1));
    let s12 = s11 + p12;
    let p13 = opt_pair("nameserver"@, opt_text(u.nameserver));
    let s13 = s12 + p13;
    let p14 = opt_pair("searchdomain"@, opt_text(u.searchdomain));
    let s14 = s13 + p14;
    let p15 = opt_pair("swap"@, opt_num32(u.swap));
    let s15 = s14 + p15;
    let p16 = opt_pair("cpulimit"@, match u.cpulimit { Some(c) => Some(c.display@), None => None });
    let s16 = s15 + p16;
    let p17 = opt_pair("unprivileged"@, opt_flag(u.unprivileged));
    let s17 = s16 + p17;
    let p18 = opt_pair("boot"@, opt_text(u.boot));
    let s18 = s17 + p18;
    let p19 = opt_pair("ostype"@, opt_text(u.ostype));
    let s19 = s18 + p19;
    let p20 = opt_pair("machine"@, opt_text(u.machine));
    let s20 = s19 + p20;
    let p21 = opt_pair("bios"@, opt_text(u.bios));
    let s21 = s20 + p21;
    let p22 = opt_pair("net0"@, opt_text(u.net0));
    let s22 = s21 + p22;
    let p23 = opt_pair("net1"@, opt_text(u.net1));
    let s23 = s22 + p23;
    let p24 = opt_pair("scsi0"@, opt_text(u.scsi0));
    let s24 = s23 + p24;
    let p25 = opt_pair("virtio0"@, opt_text(u.virtio0));
    let s25 = s24 + p25;
    let p26 = opt_pair("delete"@, opt_text(u.delete_keys));
    let s26 = s25 + p26;
    assert(s26 == update_form(u));
    if let Some(v) = u.description {
        let x = ("description"@, v@);
        assert(p6.contains(x)) by {
            assert(p6[0] == x);
        }
        lemma_in_right(s5, p6, x);
        lemma_in_left(s6, p7, x);
        lemma_in_left(s7, p8, x);
        lemma_in_left(s8, p9, x);
        lemma_in_left(s9, p10, x);
        lemma_in_left(s10, p11, x);
        lemma_in_left(s11, p12, x);
        lemma_in_left(s12, p13, x);
        lemma_in_left(s13, p14, x);
        lemma_in_left(s14, p15, x);
        lemma_in_left(s15, p16, x);
        lemma_in_left(s16, p17, x);
        lemma_in_left(s17, p18, x);
        lemma_in_left(s18, p19, x);
        lemma_in_left(s19, p20, x);
        lemma_in_left(s20, p21, x);
        lemma_in_left(s21, p22, x);
        lemma_in_left(s22, p23, x);
        lemma_in_left(s23, p24, x);
        lemma_in_left(s24, p25, x);
        lemma_in_left(s25, p26, x);
    }
    if let Some(v) = u.onboot {
        let x = ("onboot"@, (if v { "1"@ } else { "0"@ }));
        assert(p7.contains(x)) by {
            assert(p7[0] == x);
        }
        lemma_in_right(s6, p7, x);
        lemma_in_left(s7, p8, x);
        lemma_in_left(s8, p9, x);
        lemma_in_left(s9, p10, x);
        lemma_in_left(s10, p11, x);
        lemma_in_left(s11, p12, x);
        lemma_in_left(s12, p13, x);
        lemma_in_left(s13, p14, x);
        lemma_in_left(s14, p15, x);
        lemma_in_left(s15, p16, x);
        lemma_in_left(s16, p17, x);
        lemma_in_left(s17, p18, x);
        lemma_in_left(s18, p19, x);
        lemma_in_left(s19, p20, x);
        lemma_in_left(s20, p21, x);
        lemma_in_left(s21, p22, x);
        lemma_in_left(s22, p23, x);
        lemma_in_left(s23, p24, x);
        lemma_in_left(s24, p25, x);
        lemma_in_left(s25, p26, x);
    }
    if let Some(v) = u.ciuser {
        let x = ("ciuser"@, v@);
        assert(p8.contains(x)) by {
            assert(p8[0] == x);
        }
        lemma_in_right(s7, p8, x);
        lemma_in_left(s8, p9, x);
        lemma_in_left(s9, p10, x);
        lemma_in_left(s10, p11, x);
        lemma_in_left(s11, p12, x);
        lemma_in_left(s12, p13, x);
        lemma_in_left(s13, p14, x);
        lemma_in_left(s14, p15, x);
        lemma_in_left(s15, p16, x);
        lemma_in_left(s16, p17, x);
        lemma_in_left(s17, p18, x);
        lemma_in_left(s18, p19, x);
        lemma_in_left(s19, p20, x);
        lemma_in_left(s20, p21, x);
        lemma_in_left(s21, p22, x);
        lemma_in_left(s22, p23, x);
        lemma_in_left(s23, p24, x);
        lemma_in_left(s24, p25, x);
        lemma_in_left(s25, p26, x);
    }
}


#[verifier::spinoff_prover]
proof fn lemma_update_form_members_1(u: VmConfigUpdate)
    ensures
        u.cipassword matches Some(v) ==> update_form(u).contains(("cipassword"@, v@)),
        u.sshkeys matches Some(v) ==> update_form(u).contains(("sshkeys"@, v@)),
        u.ipconfig0 matches Some(v) ==> update_form(u).contains(("ipconfig0"@, v@)),
        u.ipconfig1 matches Some(v) ==> update_form(u).contains(("ipconfig1"@, v@)),
        u.nameserver matches Some(v) ==> update_form(u).contains(("nameserver"@, v@)),
        u.searchdomain matches Some(v) ==> update_form(u).contains(("searchdomain"@, v@)),
        u.swap matches Some(v) ==> update_form(u).contains(("swap"@, decimal(v as nat))),
        u.cpulimit matches Some(v) ==> update_form(u).contains(("cpulimit"@, v.display@)),
        u.unprivileged matches Some(v) ==> update_form(u).contains(("unprivileged"@, (if v { "1"@ } else { "0"@ }))),
{
    let s0 = opt_pair("cores"@, opt_num32(u.cores));
    let p1 = opt_pair("sockets"@, opt_num32(u.sockets));
    let s1 = s0 + p1;
    let p2 = opt_pair("memory"@, opt_num32(u.memory));
    let s2 = s1 + p2;
    let p3 = opt_pair("balloon"@, opt_num32(u.balloon));
    let s3 = s2 + p3;
    let p4 = opt_pair("cpu"@, opt_text(u.cpu_type));
    let s4 = s3 + p4;
    let p5 = opt_pair("name"@, opt_text(u.name));
    let s5 = s4 + p5;
    let p6 = opt_pair("description"@, opt_text(u.description));
    let s6 = s5 + p6;
    let p7 = opt_pair("onboot"@, opt_flag(u.onboot));
    let s7 = s6 + p7;
    let p8 = opt_pair("ciuser"@, opt_text(u.ciuser));
    let s8 = s7 + p8;
    let p9 = opt_pair("cipassword"@, opt_text(u.cipassword));
    let s9 = s8 + p9;
    let p10 = opt_pair("sshkeys"@, opt_text(u.sshkeys));
    let s10 = s9 + p10;
    let p11 = opt_pair("ipconfig0"@, opt_text(u.ipconfig0));
    let s11 = s10 + p11;
    let p12 = opt_pair("ipconfig1"@, opt_text(u.ipconfig1));
    let s12 = s11 + p12;
    let p13 = opt_pair("nameserver"@, opt_text(u.nameserver));
    let s13 = s12 + p13;
    let p14 = opt_pair("searchdomain"@, opt_text(u.searchdomain));
    let s14 = s13 + p14;
    let p15 = opt_pair("swap"@, opt_num32(u.swap));
    let s15 = s14 + p15;
    let p16 = opt_pair("cpulimit"@, match u.cpulimit { Some(c) => Some(c.display@), None => None });
    let s16 = s15 + p16;
    let p17 = opt_pair("unprivileged"@, opt_flag(u.unprivileged));
    let s17 = s16 + p17;
    let p18 = opt_pair("boot"@, opt_text(u.boot));
    let s18 = s17 + p18;
    let p19 = opt_pair("ostype"@, opt_text(u.ostype));
    let s19 = s18 + p19;
    let p20 = opt_pair("machine"@, opt_text(u.machine));
    let s20 = s19 + p20;
    let p21 = opt_pair("bios"@, opt_text(u.bios));
    let s21 = s20 + p21;
    let p22 = opt_pair("net0"@, opt_text(u.net0));
    let s22 = s21 + p22;
    let p23 = opt_pair("net1"@, opt_text(u.net1));
    let s23 = s22 + p23;
    let p24 = opt_pair("scsi0"@, opt_text(u.scsi0));
    let s24 = s23 + p24;
    let p25 = opt_pair("virtio0"@, opt_text(u.virtio0));
    let s25 = s24 + p25;
    let p26 = opt_pair("delete"@, opt_text(u.delete_keys));
    let s26 = s25 + p26;
    assert(s26 == update_form(u));
    if let Some(v) = u.cipassword {
        let x = ("cipassword"@, v@);
        assert(p9.contains(x)) by {
            assert(p9[0] == x);
        }
        lemma_in_right(s8, p9, x);
        lemma_in_left(s9, p10, x);
        lemma_in_left(s10, p11, x);
        lemma_in_left(s11, p12, x);
        lemma_in_left(s12, p13, x);
        lemma_in_left(s13, p14, x);
        lemma_in_left(s14, p15, x);
        lemma_in_left(s15, p16, x);
        lemma_in_left(s16, p17, x);
        lemma_in_left(s17, p18, x);
        lemma_in_left(s18, p19, x);
        lemma_in_left(s19, p20, x);
        lemma_in_left(s20, p21, x);
        lemma_in_left(s21, p22, x);
        lemma_in_left(s22, p23, x);
        lemma_in_left(s23, p24, x);
        lemma_in_left(s24, p25, x);
        lemma_in_left(s25, p26, x);
    }
    if let Some(v) = u.sshkeys {
        let x = ("sshkeys"@, v@);
        assert(p10.contains(x)) by {
            assert(p10[0] == x);
        }
        lemma_in_right(s9, p10, x);
        lemma_in_left(s10, p11, x);
        lemma_in_left(s11, p12, x);
        lemma_in_left(s12, p13, x);
        lemma_in_left(s13, p14, x);
        lemma_in_left(s14, p15, x);
        lemma_in_left(s15, p16, x);
        lemma_in_left(s16, p17, x);
        lemma_in_left(s17, p18, x);
        lemma_in_left(s18, p19, x);
        lemma_in_left(s19, p20, x);
        lemma_in_left(s20, p21, x);
        lemma_in_left(s21, p22, x);
        lemma_in_left(s22, p23, x);
        lemma_in_left(s23, p24, x);
        lemma_in_left(s24, p25, x);
        lemma_in_left(s25, p26, x);
    }
    if let Some(v) = u.ipconfig0 {
        let x = ("ipconfig0"@, v@);
        assert(p11.contains(x)) by {
            assert(p11[0] == x);
        }
        lemma_in_right(s10, p11, x);
        lemma_in_left(s11, p12, x);
        lemma_in_left(s12, p13, x);
        lemma_in_left(s13, p14, x);
        lemma_in_left(s14, p15, x);
        lemma_in_left(s15, p16, x);
        lemma_in_left(s16, p17, x);
        lemma_in_left(s17, p18, x);
        lemma_in_left(s18, p19, x);
        lemma_in_left(s19, p20, x);
        lemma_in_left(s20, p21, x);
        lemma_in_left(s21, p22, x);
        lemma_in_left(s22, p23, x);
        lemma_in_left(s23, p24, x);
        lemma_in_left(s24, p25, x);
        lemma_in_left(s25, p26, x);
    }
    if let Some(v) = u.ipconfig1 {
        let x = ("ipconfig1"@, v@);
        assert(p12.contains(x)) by {
            assert(p12[0] == x);
        }
        lemma_in_right(s11, p12, x);
        lemma_in_left(s12, p13, x);
        lemma_in_left(s13, p14, x);
        lemma_in_left(s14, p15, x);
        lemma_in_left(s15, p16, x);
        lemma_in_left(s16, p17, x);
        lemma_in_left(s17, p18, x);
        lemma_in_left(s18, p19, x);
        lemma_in_left(s19, p20, x);
        lemma_in_left(s20, p21, x);
        lemma_in_left(s21, p22, x);
        lemma_in_left(s22, p23, x);
        lemma_in_left(s23, p24, x);
        lemma_in_left(s24, p25, x);
        lemma_in_left(s25, p26, x);
    }
    if let Some(v) = u.nameserver {
        let x = ("nameserver"@, v@);
        assert(p13.contains(x)) by {
            assert(p13[0] == x);
        }
        lemma_in_right(s12, p13, x);
        lemma_in_left(s13, p14, x);
        lemma_in_left(s14, p15, x);
        lemma_in_left(s15, p16, x);
        lemma_in_left(s16, p17, x);
        lemma_in_left(s17, p18, x);
        lemma_in_left(s18, p19, x);
        lemma_in_left(s19, p20, x);
        lemma_in_left(s20, p21, x);
        lemma_in_left(s21, p22, x);
        lemma_in_left(s22, p23, x);
        lemma_in_left(s23, p24, x);
        lemma_in_left(s24, p25, x);
        lemma_in_left(s25, p26, x);
    }
    if let Some(v) = u.searchdomain {
        let x = ("searchdomain"@, v@);
        assert(p14.contains(x)) by {
            assert(p14[0] == x);
        }
        lemma_in_right(s13, p14, x);
        lemma_in_left(s14, p15, x);
        lemma_in_left(s15, p16, x);
        lemma_in_left(s16, p17, x);
        lemma_in_left(s17, p18, x);
        lemma_in_left(s18, p19, x);
        lemma_in_left(s19, p20, x);
        lemma_in_left(s20, p21, x);
        lemma_in_left(s21, p22, x);
        lemma_in_left(s22, p23, x);
        lemma_in_left(s23, p24, x);
        lemma_in_left(s24, p25, x);
        lemma_in_left(s25, p26, x);
    }
    if let Some(v) = u.swap {
        let x = ("swap"@, decimal(v as nat));
        assert(p15.contains(x)) by {
            assert(p15[0] == x);
        }
        lemma_in_right(s14, p15, x);
        lemma_in_left(s15, p16, x);
        lemma_in_left(s16, p17, x);
        lemma_in_left(s17, p18, x);
        lemma_in_left(s18, p19, x);
        lemma_in_left(s19, p20, x);
        lemma_in_left(s20, p21, x);
        lemma_in_left(s21, p22, x);
        lemma_in_left(s22, p23, x);
        lemma_in_left(s23, p24, x);
        lemma_in_left(s24, p25, x);
        lemma_in_left(s25, p26, x);
    }
    if let Some(v) = u.cpulimit {
        let x = ("cpulimit"@, v.display@);
        assert(p16.contains(x)) by {
            assert(p16[0] == x);
        }
        lemma_in_right(s15, p16, x);
        lemma_in_left(s16, p17, x);
        lemma_in_left(s17, p18, x);
        lemma_in_left(s18, p19, x);
        lemma_in_left(s19, p20, x);
        lemma_in_left(s20, p21, x);
        lemma_in_left(s21, p22, x);
        lemma_in_left(s22, p23, x);
        lemma_in_left(s23, p24, x);
        lemma_in_left(s24, p25, x);
        lemma_in_left(s25, p26, x);
    }
    if let Some(v) = u.unprivileged {
        let x = ("unprivileged"@, (if v { "1"@ } else { "0"@ }));
        assert(p17.contains(x)) by {
            assert(p17[0] == x);
        }
        lemma_in_right(s16, p17, x);
        lemma_in_left(s17, p18, x);
        lemma_in_left(s18, p19, x);
        lemma_in_left(s19, p20, x);
        lemma_in_left(s20, p21, x);
        lemma_in_left(s21, p22, x);
        lemma_in_left(s22, p23, x);
        lemma_in_left(s23, p24, x);
        lemma_in_left(s24, p25, x);
        lemma_in_left(s25, p26, x);
    }
}

#[verifier::spinoff_prover]
proof fn lemma_update_form_members_2(u: VmConfigUpdate)
    ensures
        u.boot matches Some(v) ==> update_form(u).contains(("boot"@, v@)),
        u.ostype matches Some(v) ==> update_form(u).contains(("ostype"@, v@)),
        u.machine matches Some(v) ==> update_form(u).contains(("machine"@, v@)),
        u.bios matches Some(v) ==> update_form(u).contains(("bios"@, v@)),
        u.net0 matches Some(v) ==> update_form(u).contains(("net0"@, v@)),
        u.net1 matches Some(v) ==> update_form(u).contains(("net1"@, v@)),
        u.scsi0 matches Some(v) ==> update_form(u).contains(("scsi0"@, v@)),
        u.virtio0 matches Some(v) ==> update_form(u).contains(("virtio0"@, v@)),
        u.delete_keys matches Some(v) ==> update_form(u).contains(("delete"@, v@)),
{
    let s0 = opt_pair("cores"@, opt_num32(u.cores));
    let p1 = opt_pair("sockets"@, opt_num32(u.sockets));
    let s1 = s0 + p1;
    let p2 = opt_pair("memory"@, opt_num32(u.memory));
    let s2 = s1 + p2;
    let p3 = opt_pair("balloon"@, opt_num32(u.balloon));
    let s3 = s2 + p3;
    let p4 = opt_pair("cpu"@, opt_text(u.cpu_type));
    let s4 = s3 + p4;
    let p5 = opt_pair("name"@, opt_text(u.name));
    let s5 = s4 + p5;
    let p6 = opt_pair("description"@, opt_text(u.description));
    let s6 = s5 + p6;
    let p7 = opt_pair("onboot"@, opt_flag(u.onboot));
    let s7 = s6 + p7;
    let p8 = opt_pair("ciuser"@, opt_text(u.ciuser));
    let s8 = s7 + p8;
    let p9 = opt_pair("cipassword"@, opt_text(u.cipassword));
    let s9 = s8 + p9;
    let p10 = opt_pair("sshkeys"@, opt_text(u.sshkeys));
    let s10 = s9 + p10;
    let p11 = opt_pair("ipconfig0"@, opt_text(u.ipconfig0));
    let s11 = s10 + p11;
    let p12 = opt_pair("ipconfig1"@, opt_text(u.ipconfig1));
    let s12 = s11 + p12;
    let p13 = opt_pair("nameserver"@, opt_text(u.nameserver));
    let s13 = s12 + p13;
    let p14 = opt_pair("searchdomain"@, opt_text(u.searchdomain));
    let s14 = s13 + p14;
    let p15 = opt_pair("swap"@, opt_num32(u.swap));
    let s15 = s14 + p15;
    let p16 = opt_pair("cpulimit"@, match u.cpulimit { Some(c) => Some(c.display@), None => None });
    let s16 = s15 + p16;
    let p17 = opt_pair("unprivileged"@, opt_flag(u.unprivileged));
    let s17 = s16 + p17;
    let p18 = opt_pair("boot"@, opt_text(u.boot));
    let s18 = s17 + p18;
    let p19 = opt_pair("ostype"@, opt_text(u.ostype));
    let s19 = s18 + p19;
    let p20 = opt_pair("machine"@, opt_text(u.machine));
    let s20 = s19 + p20;
    let p21 = opt_pair("bios"@, opt_text(u.bios));
    let s21 = s20 + p21;
    let p22 = opt_pair("net0"@, opt_text(u.net0));
    let s22 = s21 + p22;
    let p23 = opt_pair("net1"@, opt_text(u.net1));
    let s23 = s22 + p23;
    let p24 = opt_pair("scsi0"@, opt_text(u.scsi0));
    let s24 = s23 + p24;
    let p25 = opt_pair("virtio0"@, opt_text(u.virtio0));
    let s25 = s24 + p25;
    let p26 = opt_pair("delete"@, opt_text(u.delete_keys));
    let s26 = s25 + p26;
    assert(s26 == update_form(u));
    if let Some(v) = u.boot {
        let x = ("boot"@, v@);
        assert(p18.contains(x)) by {
            assert(p18[0] == x);
        }
        lemma_in_right(s17, p18, x);
        lemma_in_left(s18, p19, x);
        lemma_in_left(s19, p20, x);
        lemma_in_left(s20, p21, x);
        lemma_in_left(s21, p22, x);
        lemma_in_left(s22, p23, x);
        lemma_in_left(s23, p24, x);
        lemma_in_left(s24, p25, x);
        lemma_in_left(s25, p26, x);
    }
    if let Some(v) = u.ostype {
        let x = ("ostype"@, v@);
        assert(p19.contains(x)) by {
            assert(p19[0] == x);
        }
        lemma_in_right(s18, p19, x);
        lemma_in_left(s19, p20, x);
        lemma_in_left(s20, p21, x);
        lemma_in_left(s21, p22, x);
        lemma_in_left(s22, p23, x);
        lemma_in_left(s23, p24, x);
        lemma_in_left(s24, p25, x);
        lemma_in_left(s25, p26, x);
    }
    if let Some(v) = u.machine {
        let x = ("machine"@, v@);
        assert(p20.contains(x)) by {
            assert(p20[0] == x);
        }
        lemma_in_right(s19, p20, x);
        lemma_in_left(s20, p21, x);
        lemma_in_left(s21, p22, x);
        lemma_in_left(s22, p23, x);
        lemma_in_left(s23, p24, x);
        lemma_in_left(s24, p25, x);
        lemma_in_left(s25, p26, x);
    }
    if let Some(v) = u.bios {
        let x = ("bios"@, v@);
        assert(p21.contains(x)) by {
            assert(p21[0] == x);
        }
        lemma_in_right(s20, p21, x);
        lemma_in_left(s21, p22, x);
        lemma_in_left(s22, p23, x);
        lemma_in_left(s23, p24, x);
        lemma_in_left(s24, p25, x);
        lemma_in_left(s25, p26, x);
    }
    if let Some(v) = u.net0 {
        let x = ("net0"@, v@);
        assert(p22.contains(x)) by {
            assert(p22[0] == x);
        }
        lemma_in_right(s21, p22, x);
        lemma_in_left(s22, p23, x);
        lemma_in_left(s23, p24, x);
        lemma_in_left(s24, p25, x);
        lemma_in_left(s25, p26, x);
    }
    if let Some(v) = u.net1 {
        let x = ("net1"@, v@);
        assert(p23.contains(x)) by {
            assert(p23[0] == x);
        }
        lemma_in_right(s22, p23, x);
        lemma_in_left(s23, p24, x);
        lemma_in_left(s24, p25, x);
        lemma_in_left(s25, p26, x);
    }
    if let Some(v) = u.scsi0 {
        let x = ("scsi0"@, v@);
        assert(p24.contains(x)) by {
            assert(p24[0] == x);
        }
        lemma_in_right(s23, p24, x);
        lemma_in_left(s24, p25, x);
        lemma_in_left(s25, p26, x);
    }
    if let Some(v) = u.virtio0 {
        let x = ("virtio0"@, v@);
        assert(p25.contains(x)) by {
            assert(p25[0] == x);
        }
        lemma_in_right(s24, p25, x);
        lemma_in_left(s25, p26, x);
    }
    if let Some(v) = u.delete_keys {
        let x = ("delete"@, v@);
        assert(p26.contains(x)) by {
            assert(p26[0] == x);
        }
        lemma_in_right(s25, p26, x);
    }
}

proof fn lemma_num_pair_len(k: Seq<char>, x: Option<u32>)
    ensures
        opt_pair(k, opt_num32(x)).len() == one_if(x is Some),
{
    reveal(one_if);
}

proof fn lemma_text_pair_len(k: Seq<char>, x: Option<String>)
    ensures
        opt_pair(k, opt_text(x)).len() == one_if(x is Some),
{
    reveal(one_if);
}

proof fn lemma_flag_pair_len(k: Seq<char>, x: Option<bool>)
    ensures
        opt_pair(k, opt_flag(x)).len() == one_if(x is Some),
{
    reveal(one_if);
}

proof fn lemma_float_pair_len(k: Seq<char>, x: Option<FloatText>)
    ensures
        opt_pair(
            k,
            match x {
                Some(c) => Some(c.display@),
                None => None,
            },
        ).len() == one_if(x is Some),
{
    reveal(one_if);
}

proof fn lemma_concat_len(q0: Seq<(Seq<char>, Seq<char>)>, q1: Seq<(Seq<char>, Seq<char>)>, q2: Seq<(Seq<char>, Seq<char>)>, q3: Seq<(Seq<char>, Seq<char>)>, q4: Seq<(Seq<char>, Seq<char>)>, q5: Seq<(Seq<char>, Seq<char>)>, q6: Seq<(Seq<char>, Seq<char>)>, q7: Seq<(Seq<char>, Seq<char>)>, q8: Seq<(Seq<char>, Seq<char>)>, q9: Seq<(Seq<char>, Seq<char>)>, q10: Seq<(Seq<char>, Seq<char>)>, q11: Seq<(Seq<char>, Seq<char>)>, q12: Seq<(Seq<char>, Seq<char>)>, q13: Seq<(Seq<char>, Seq<char>)>, q14: Seq<(Seq<char>, Seq<char>)>, q15: Seq<(Seq<char>, Seq<char>)>, q16: Seq<(Seq<char>, Seq<char>)>, q17: Seq<(Seq<char>, Seq<char>)>, q18: Seq<(Seq<char>, Seq<char>)>, q19: Seq<(Seq<char>, Seq<char>)>, q20: Seq<(Seq<char>, Seq<char>)>, q21: Seq<(Seq<char>, Seq<char>)>, q22: Seq<(Seq<char>, Seq<char>)>, q23: Seq<(Seq<char>, Seq<char>)>, q24: Seq<(Seq<char>, Seq<char>)>, q25: Seq<(Seq<char>, Seq<char>)>, q26: Seq<(Seq<char>, Seq<char>)>)
    ensures
        (q0 + q1 + q2 + q3 + q4 + q5 + q6 + q7 + q8 + q9 + q10 + q11 + q12 + q13 + q14 + q15 + q16 + q17 + q18 + q19 + q20 + q21 + q22 + q23 + q24 + q25 + q26).len() == q0.len() + q1.len() + q2.len() + q3.len() + q4.len() + q5.len() + q6.len() + q7.len() + q8.len() + q9.len() + q10.len() + q11.len() + q12.len() + q13.len() + q14.len() + q15.len() + q16.len() + q17.len() + q18.len() + q19.len() + q20.len() + q21.len() + q22.len() + q23.len() + q24.len() + q25.len() + q26.len(),
{
}

#[verifier::spinoff_prover]
proof fn lemma_update_form_len(u: VmConfigUpdate)
    ensures
        update_form(u).len() == fields_set(u),
{
    lemma_num_pair_len("cores"@, u.cores);
    lemma_num_pair_len("sockets"@, u.sockets);
    lemma_num_pair_len("memory"@, u.memory);
    lemma_num_pair_len("balloon"@, u.balloon);
    lemma_text_pair_len("cpu"@, u.cpu_type);
    lemma_text_pair_len("name"@, u.name);
    lemma_text_pair_len("description"@, u.description);
    lemma_flag_pair_len("onboot"@, u.onboot);
    lemma_text_pair_len("ciuser"@, u.ciuser);
    lemma_text_pair_len("cipassword"@, u.cipassword);
    lemma_text_pair_len("sshkeys"@, u.sshkeys);
    lemma_text_pair_len("ipconfig0"@, u.ipconfig0);
    lemma_text_pair_len("ipconfig1"@, u.ipconfig1);
    lemma_text_pair_len("nameserver"@, u.nameserver);
    lemma_text_pair_len("searchdomain"@, u.searchdomain);
    lemma_num_pair_len("swap"@, u.swap);
    lemma_float_pair_len("cpulimit"@, u.cpulimit);
    lemma_flag_pair_len("unprivileged"@, u.unprivileged);
    lemma_text_pair_len("boot"@, u.boot);
    lemma_text_pair_len("ostype"@, u.ostype);
    lemma_text_pair_len("machine"@, u.machine);
    lemma_text_pair_len("bios"@, u.bios);
    lemma_text_pair_len("net0"@, u.net0);
    lemma_text_pair_len("net1"@, u.net1);
    lemma_text_pair_len("scsi0"@, u.scsi0);
    lemma_text_pair_len("virtio0"@, u.virtio0);
    lemma_text_pair_len("delete"@, u.delete_keys);
    lemma_concat_len(opt_pair("cores"@, opt_num32(u.cores)), opt_pair("sockets"@, opt_num32(u.sockets)), opt_pair("memory"@, opt_num32(u.memory)), opt_pair("balloon"@, opt_num32(u.balloon)), opt_pair("cpu"@, opt_text(u.cpu_type)), opt_pair("name"@, opt_text(u.name)), opt_pair("description"@, opt_text(u.description)), opt_pair("onboot"@, opt_flag(u.onboot)), opt_pair("ciuser"@, opt_text(u.ciuser)), opt_pair("cipassword"@, opt_text(u.cipassword)), opt_pair("sshkeys"@, opt_text(u.sshkeys)), opt_pair("ipconfig0"@, opt_text(u.ipconfig0)), opt_pair("ipconfig1"@, opt_text(u.ipconfig1)), opt_pair("nameserver"@, opt_text(u.nameserver)), opt_pair("searchdomain"@, opt_text(u.searchdomain)), opt_pair("swap"@, opt_num32(u.swap)), opt_pair("cpulimit"@, match u.cpulimit { Some(c) => Some(c.display@), None => None }), opt_pair("unprivileged"@, opt_flag(u.unprivileged)), opt_pair("boot"@, opt_text(u.boot)), opt_pair("ostype"@, opt_text(u.ostype)), opt_pair("machine"@, opt_text(u.machine)), opt_pair("bios"@, opt_text(u.bios)), opt_pair("net0"@, opt_text(u.net0)), opt_pair("net1"@, opt_text(u.net1)), opt_pair("scsi0"@, opt_text(u.scsi0)), opt_pair("virtio0"@, opt_text(u.virtio0)), opt_pair("delete"@, opt_text(u.delete_keys)));
}




/// The form sent for a configuration update carries, for every field the
/// update sets, that field's own value under that field's own key (`memory`
/// holds the memory size, `balloon` the balloon size, and so on), and
/// nothing else: it has one entry per field set.
pub proof fn law_update_form_sends_each_field(u: VmConfigUpdate)
    ensures
        update_form(u).len() == fields_set(u),
        u.cores matches Some(v) ==> update_form(u).contains(("cores"@, decimal(v as nat))),
        u.sockets matches Some(v) ==> update_form(u).contains(("sockets"@, decimal(v as nat))),
        u.memory matches Some(v) ==> update_form(u).contains(("memory"@, decimal(v as nat))),
        u.balloon matches Some(v) ==> update_form(u).contains(("balloon"@, decimal(v as nat))),
        u.cpu_type matches Some(v) ==> update_form(u).contains(("cpu"@, v@)),
        u.name matches Some(v) ==> update_form(u).contains(("name"@, v@)),
        u.description matches Some(v) ==> update_form(u).contains(("description"@, v@)),
        u.onboot matches Some(v) ==> update_form(u).contains(("onboot"@, (if v { "1"@ } else { "0"@ }))),
        u.ciuser matches Some(v) ==> update_form(u).contains(("ciuser"@, v@)),
        u.cipassword matches Some(v) ==> update_form(u).contains(("cipassword"@, v@)),
        u.sshkeys matches Some(v) ==> update_form(u).contains(("sshkeys"@, v@)),
        u.ipconfig0 matches Some(v) ==> update_form(u).contains(("ipconfig0"@, v@)),
        u.ipconfig1 matches Some(v) ==> update_form(u).contains(("ipconfig1"@, v@)),
        u.nameserver matches Some(v) ==> update_form(u).contains(("nameserver"@, v@)),
        u.searchdomain matches Some(v) ==> update_form(u).contains(("searchdomain"@, v@)),
        u.swap matches Some(v) ==> update_form(u).contains(("swap"@, decimal(v as nat))),
        u.cpulimit matches Some(v) ==> update_form(u).contains(("cpulimit"@, v.display@)),
        u.unprivileged matches Some(v) ==> update_form(u).contains(("unprivileged"@, (if v { "1"@ } else { "0"@ }))),
        u.boot matches Some(v) ==> update_form(u).contains(("boot"@, v@)),
        u.ostype matches Some(v) ==> update_form(u).contains(("ostype"@, v@)),
        u.machine matches Some(v) ==> update_form(u).contains(("machine"@, v@)),
        u.bios matches Some(v) ==> update_form(u).contains(("bios"@, v@)),
        u.net0 matches Some(v) ==> update_form(u).contains(("net0"@, v@)),
        u.net1 matches Some(v) ==> update_form(u).contains(("net1"@, v@)),
        u.scsi0 matches Some(v) ==> update_form(u).contains(("scsi0"@, v@)),
        u.virtio0 matches Some(v) ==> update_form(u).contains(("virtio0"@, v@)),
        u.delete_keys matches Some(v) ==> update_form(u).contains(("delete"@, v@)),
{
    lemma_update_form_len(u);
    lemma_update_form_members_00(u);
    lemma_update_form_members_01(u);
    lemma_update_form_members_02(u);
    lemma_update_form_members_1(u);
    lemma_update_form_members_2(u);
}

} // verus!
