use starfund_escrow::errors::EscrowError;
use starfund_escrow::mock_token::{DefaultMockToken, MOCK_TOKEN_DEFAULT_BALANCE};
use starfund_escrow::transfer_checks::{check_transfer_after, check_transfer_before};
use starfund_escrow::types::Addr;

#[test]
fn mock_token_moves_balances() {
    let mut t = DefaultMockToken::new();
    let a = Addr::new(1);
    let b = Addr::new(2);
    assert_eq!(t.balance(a), MOCK_TOKEN_DEFAULT_BALANCE);
    t.transfer(a, b, 250);
    assert_eq!(t.balance(a), MOCK_TOKEN_DEFAULT_BALANCE - 250);
    assert_eq!(t.balance(b), MOCK_TOKEN_DEFAULT_BALANCE + 250);
    t.transfer(b, b, 10);
    assert_eq!(t.balance(b), MOCK_TOKEN_DEFAULT_BALANCE + 260);
    assert_eq!(t.balance(Addr::new(3)), MOCK_TOKEN_DEFAULT_BALANCE);
}

#[test]
fn transfer_prechecks() {
    assert_eq!(check_transfer_before(0, 100), Err(EscrowError::TransferAmountNotPositive));
    assert_eq!(check_transfer_before(101, 100), Err(EscrowError::InsufficientTokenBalanceBeforeTransfer));
    assert_eq!(check_transfer_before(100, 100), Ok(()));
}

#[test]
fn transfer_postchecks_catch_misbehaving_tokens() {
    assert_eq!(check_transfer_after(10, 100, 5, 90, 15), Ok(()));
    // A fee-on-transfer token delivers less than was sent.
    assert_eq!(check_transfer_after(10, 100, 5, 90, 14), Err(EscrowError::RecipientBalanceDeltaMismatch));
    assert_eq!(check_transfer_after(10, 100, 5, 89, 15), Err(EscrowError::SenderBalanceDeltaMismatch));
    assert_eq!(check_transfer_after(1, i128::MIN, 0, 0, 1), Err(EscrowError::SenderBalanceUnderflow));
    assert_eq!(check_transfer_after(1, 5, i128::MAX, 4, 0), Err(EscrowError::RecipientBalanceUnderflow));
}
