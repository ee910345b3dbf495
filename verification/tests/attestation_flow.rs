use starfund_escrow::errors::{EscrowError, Failure};
use starfund_escrow::state::StarfundEscrow;
use starfund_escrow::types::{Addr, AttestationDigestInfo, CallContext, SmeCollateralCommitment, Sym};

const ADMIN: Addr = Addr { id: 1 };
const SME: Addr = Addr { id: 2 };
const TOKEN: Addr = Addr { id: 3 };
const TREASURY: Addr = Addr { id: 4 };

fn everyone(ts: u64) -> CallContext {
    CallContext { timestamp: ts, sequence: 20, signers: vec![ADMIN, SME, TOKEN, TREASURY] }
}

fn only(ts: u64, signers: &[Addr]) -> CallContext {
    CallContext { timestamp: ts, sequence: 20, signers: signers.to_vec() }
}

fn err(e: EscrowError) -> Failure {
    Failure::Escrow(e)
}

fn digest(b: u8) -> [u8; 32] {
    [b; 32]
}

fn deploy() -> StarfundEscrow {
    let mut s = StarfundEscrow::new();
    s.init(&everyone(100), ADMIN, b"INV_ATT", SME, 1_000, 800, 0, TOKEN, None, TREASURY, None, None, None, None, None, None, None, None, None, None).unwrap();
    s
}

#[test]
fn primary_digest_binds_once() {
    let mut s = deploy();
    assert_eq!(s.get_primary_attestation_hash(), None);
    s.bind_primary_attestation_hash(&everyone(200), digest(7)).unwrap();
    assert_eq!(s.get_primary_attestation_hash(), Some(digest(7)));
    assert_eq!(s.bind_primary_attestation_hash(&everyone(201), digest(8)), Err(err(EscrowError::PrimaryAttestationAlreadyBound)));
    assert_eq!(s.get_primary_attestation_hash(), Some(digest(7)));
}

#[test]
fn append_log_is_bounded() {
    let mut s = deploy();
    for i in 0..32u8 {
        assert_eq!(s.append_attestation_digest(&everyone(200), digest(i)), Ok(i as u32));
    }
    assert_eq!(s.append_attestation_digest(&everyone(200), digest(99)), Err(err(EscrowError::AttestationAppendLogCapacityReached)));
    let log = s.get_attestation_append_log();
    assert_eq!(log.len(), 32);
    assert_eq!(log[5], digest(5));
}

#[test]
fn revocation_marks_and_unmarks() {
    let mut s = deploy();
    s.append_attestation_digest(&everyone(200), digest(1)).unwrap();
    s.append_attestation_digest(&everyone(200), digest(2)).unwrap();
    assert_eq!(s.revoke_attestation_digest(&everyone(210), 2), Err(err(EscrowError::AttestationIndexOutOfRange)));
    s.revoke_attestation_digest(&everyone(210), 1).unwrap();
    assert!(s.is_attestation_revoked(1));
    assert_eq!(s.revoke_attestation_digest(&everyone(211), 1), Err(err(EscrowError::AttestationAlreadyRevoked)));
    assert_eq!(s.get_attestation_digest_at(1), Some(AttestationDigestInfo { digest: digest(2), revoked: true }));
    assert_eq!(s.get_attestation_digest_at(0), Some(AttestationDigestInfo { digest: digest(1), revoked: false }));
    assert_eq!(s.get_attestation_digest_at(2), None);
    assert_eq!(s.unrevoke_attestation_digest(&everyone(220), 0), Err(err(EscrowError::AttestationNotRevoked)));
    assert_eq!(s.unrevoke_attestation_digest(&only(220, &[SME]), 1), Err(Failure::AuthMissing(ADMIN)));
    s.unrevoke_attestation_digest(&everyone(220), 1).unwrap();
    assert!(!s.is_attestation_revoked(1));
}

#[test]
fn batch_revocation_is_atomic() {
    let mut s = deploy();
    for i in 0..4u8 {
        s.append_attestation_digest(&everyone(200), digest(i)).unwrap();
    }
    assert_eq!(s.revoke_attestation_digests(&everyone(210), &vec![]), Err(err(EscrowError::AttestationBatchEmpty)));
    assert_eq!(s.revoke_attestation_digests(&everyone(210), &vec![1, 3, 1]), Err(err(EscrowError::AttestationAlreadyRevoked)));
    assert!(!s.is_attestation_revoked(1));
    assert_eq!(s.revoke_attestation_digests(&everyone(210), &vec![1, 9]), Err(err(EscrowError::AttestationIndexOutOfRange)));
    s.revoke_attestation_digests(&everyone(210), &vec![1, 3]).unwrap();
    assert!(s.is_attestation_revoked(1));
    assert!(s.is_attestation_revoked(3));
    assert!(!s.is_attestation_revoked(2));
    assert_eq!(
        s.get_revoked_attestation_digests(0, 20),
        Ok(vec![
            AttestationDigestInfo { digest: digest(1), revoked: true },
            AttestationDigestInfo { digest: digest(3), revoked: true },
        ])
    );
    assert_eq!(s.get_revoked_attestation_digests(0, 0), Err(err(EscrowError::AttestationReadLimitZero)));
    assert_eq!(s.get_revoked_attestation_digests(0, 21), Err(err(EscrowError::AttestationReadLimitTooLarge)));
    let page = s.get_attestation_digests(1, 2);
    assert_eq!(
        page,
        vec![
            AttestationDigestInfo { digest: digest(1), revoked: true },
            AttestationDigestInfo { digest: digest(2), revoked: false },
        ]
    );
    assert_eq!(s.get_attestation_digests(4, 5), vec![]);
    assert_eq!(s.get_attestation_digests(0, 0), vec![]);
}

#[test]
fn collateral_record_replace_and_clear() {
    let mut s = deploy();
    let usdc = Sym::from_bytes(b"USDC");
    assert_eq!(s.record_sme_collateral_commitment(&everyone(200), usdc, 0), Err(err(EscrowError::CollateralAmountNotPositive)));
    assert_eq!(s.record_sme_collateral_commitment(&everyone(200), Sym::empty(), 5), Err(err(EscrowError::CollateralAssetEmpty)));
    assert_eq!(s.record_sme_collateral_commitment(&only(200, &[ADMIN]), usdc, 5), Err(Failure::AuthMissing(SME)));
    let c = s.record_sme_collateral_commitment(&everyone(200), usdc, 5).unwrap();
    assert_eq!(c, SmeCollateralCommitment { asset: usdc, amount: 5, recorded_at: 200 });
    assert_eq!(s.record_sme_collateral_commitment(&everyone(150), usdc, 6), Err(err(EscrowError::CollateralTimestampBackwards)));
    assert_eq!(s.clear_sme_collateral_commitment(&everyone(300)), Ok(c));
    assert_eq!(s.get_sme_collateral_commitment(), None);
    assert_eq!(s.clear_sme_collateral_commitment(&everyone(300)), Err(err(EscrowError::NoCollateralToClear)));
}

#[test]
fn collateral_batch_keeps_the_last_item() {
    let mut s = deploy();
    let usdc = Sym::from_bytes(b"USDC");
    let xlm = Sym::from_bytes(b"XLM");
    assert_eq!(s.batch_record_collateral(&everyone(200), &vec![]), Err(err(EscrowError::CollateralBatchEmpty)));
    assert_eq!(s.batch_record_collateral(&everyone(200), &vec![(usdc, 5), (xlm, 0)]), Err(err(EscrowError::CollateralAmountNotPositive)));
    assert_eq!(s.get_sme_collateral_commitment(), None);
    let c = s.batch_record_collateral(&everyone(200), &vec![(usdc, 5), (xlm, 9)]).unwrap();
    assert_eq!(c, SmeCollateralCommitment { asset: xlm, amount: 9, recorded_at: 200 });
    // The same items recorded one by one end in the same state.
    let mut t = deploy();
    t.record_sme_collateral_commitment(&everyone(200), usdc, 5).unwrap();
    t.record_sme_collateral_commitment(&everyone(200), xlm, 9).unwrap();
    assert_eq!(t.get_sme_collateral_commitment(), s.get_sme_collateral_commitment());
    let big: Vec<(Sym, i128)> = (0..51).map(|_| (usdc, 1)).collect();
    assert_eq!(s.batch_record_collateral(&everyone(200), &big), Err(err(EscrowError::CollateralBatchTooLarge)));
}
