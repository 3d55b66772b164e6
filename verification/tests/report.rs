use trustee::report::{
    AttestationReport, Signature, COMPONENT_SIZE, DIGEST_SIZE, MEASURABLE_SIZE, NONCE_SIZE,
    POLICY_OFFSET, REPORT_SIZE, SIGNATURE_OFFSET,
};

fn sample() -> AttestationReport {
    let mut nonce = [0u8; 16];
    let mut launch_digest = [0u8; 32];
    let mut r = [0u8; 72];
    let mut s = [0u8; 72];
    for i in 0..16 {
        nonce[i] = 0xa0 + i as u8;
    }
    for i in 0..32 {
        launch_digest[i] = 0x40 + i as u8;
    }
    for i in 0..72 {
        r[i] = i as u8;
        s[i] = 0xff - i as u8;
    }
    AttestationReport {
        nonce,
        launch_digest,
        policy: 0x0102_0304,
        sig_usage: 0x1112_1314,
        sig_algo: 0x2122_2324,
        reserved: 0x3132_3334,
        signature: Signature { r, s },
    }
}

fn same(a: &AttestationReport, b: &AttestationReport) -> bool {
    a.nonce == b.nonce
        && a.launch_digest == b.launch_digest
        && a.policy == b.policy
        && a.sig_usage == b.sig_usage
        && a.sig_algo == b.sig_algo
        && a.reserved == b.reserved
        && a.signature.r == b.signature.r
        && a.signature.s == b.signature.s
}

#[test]
fn sizes_and_offsets_are_those_of_the_wire_layout() {
    assert_eq!(NONCE_SIZE, 16);
    assert_eq!(DIGEST_SIZE, 32);
    assert_eq!(POLICY_OFFSET, 0x30);
    assert_eq!(MEASURABLE_SIZE, 52);
    assert_eq!(SIGNATURE_OFFSET, 0x40);
    assert_eq!(COMPONENT_SIZE, 72);
    assert_eq!(REPORT_SIZE, 208);
}

#[test]
fn measurable_bytes_of_zero_report_are_52_bytes_of_nonce_digest_policy() {
    let mut launch_digest = [0u8; 32];
    for i in 0..32 {
        launch_digest[i] = i as u8 + 1;
    }
    let report = AttestationReport {
        nonce: [0u8; 16],
        launch_digest,
        policy: 0,
        sig_usage: 9,
        sig_algo: 9,
        reserved: 9,
        signature: Signature { r: [9u8; 72], s: [9u8; 72] },
    };
    let measured = report.measurable_bytes();
    assert_eq!(measured.len(), 52);
    assert_eq!(&measured[0..16], &[0u8; 16]);
    assert_eq!(&measured[16..48], &launch_digest);
    assert_eq!(&measured[48..52], &[0u8, 0, 0, 0]);
}

#[test]
fn policy_is_laid_out_least_significant_byte_first() {
    let measured = sample().measurable_bytes();
    assert_eq!(&measured[48..52], &[0x04u8, 0x03, 0x02, 0x01]);
    assert_eq!(&measured[48..52], &0x0102_0304u32.to_le_bytes());
}

#[test]
fn wire_form_has_every_field_at_its_offset() {
    let report = sample();
    let wire = report.to_bytes();
    assert_eq!(wire.len(), 208);
    assert_eq!(&wire[0x00..0x10], &report.nonce);
    assert_eq!(&wire[0x10..0x30], &report.launch_digest);
    assert_eq!(&wire[0x30..0x34], &[0x04u8, 0x03, 0x02, 0x01]);
    assert_eq!(&wire[0x34..0x38], &[0x14u8, 0x13, 0x12, 0x11]);
    assert_eq!(&wire[0x38..0x3c], &[0x24u8, 0x23, 0x22, 0x21]);
    assert_eq!(&wire[0x3c..0x40], &[0x34u8, 0x33, 0x32, 0x31]);
    assert_eq!(&wire[0x40..0x88], &report.signature.r);
    assert_eq!(&wire[0x88..0xd0], &report.signature.s);
}

#[test]
fn measurable_bytes_are_the_first_52_of_the_wire_form() {
    let report = sample();
    assert_eq!(&report.to_bytes()[0..52], &report.measurable_bytes()[..]);
}

#[test]
fn wire_form_reads_back_to_the_same_report() {
    let report = sample();
    let back = AttestationReport::from_bytes(&report.to_bytes()).unwrap();
    assert!(same(&report, &back));
}

#[test]
fn bytes_read_and_laid_out_again_are_the_same_bytes() {
    let mut bytes = vec![0u8; 208];
    for (i, byte) in bytes.iter_mut().enumerate() {
        *byte = (i * 31 % 251) as u8;
    }
    let report = AttestationReport::from_bytes(&bytes).unwrap();
    assert_eq!(report.to_bytes(), bytes);
    assert_eq!(report.policy, u32::from_le_bytes([bytes[48], bytes[49], bytes[50], bytes[51]]));
}

#[test]
fn input_of_another_length_is_no_report() {
    assert!(AttestationReport::from_bytes(&[]).is_none());
    assert!(AttestationReport::from_bytes(&[0u8; 207]).is_none());
    assert!(AttestationReport::from_bytes(&[0u8; 209]).is_none());
    assert!(AttestationReport::from_bytes(&[0u8; 52]).is_none());
    assert!(AttestationReport::from_bytes(&[0u8; 208]).is_some());
}

#[test]
fn words_outside_the_signed_range_do_not_enter_the_measurable_bytes() {
    let report = sample();
    let mut other = sample();
    other.sig_usage = 0;
    other.sig_algo = 0;
    other.reserved = 0;
    other.signature = Signature { r: [0u8; 72], s: [0u8; 72] };
    assert_eq!(report.measurable_bytes(), other.measurable_bytes());
}

#[test]
fn a_change_to_nonce_digest_or_policy_changes_the_measurable_bytes() {
    let report = sample();
    let mut changed = sample();
    changed.nonce[15] ^= 0x80;
    assert_ne!(report.measurable_bytes(), changed.measurable_bytes());
    let mut changed = sample();
    changed.launch_digest[0] ^= 0x01;
    assert_ne!(report.measurable_bytes(), changed.measurable_bytes());
    let mut changed = sample();
    changed.policy ^= 1 << 31;
    assert_ne!(report.measurable_bytes(), changed.measurable_bytes());
}
