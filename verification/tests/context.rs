use abiv2::account::{Account, TransactionAccount};
use abiv2::context::{InstructionContext, TransactionContext};
use abiv2::region::context::{Context, CpiInvokeParams};
use abiv2::region::instruction::Instruction;
use abiv2::cpi::ReturnData;

fn accounts() -> Vec<TransactionAccount> {
    (0..3u8)
        .map(|i| TransactionAccount::new([i; 32], [0; 32], i as u64 * 10, 0x8_0000_0000 + i as u64 * 0x1_0000_0000, vec![i; i as usize]))
        .collect()
}

#[test]
fn instruction_parent_and_program() {
    let top = InstructionContext::new(2, 0, u16::MAX, vec![Account::readonly(0)], vec![]);
    let inner = InstructionContext::new(1, 1, 0, vec![], vec![9]);
    let instructions = vec![top, inner];
    assert!(!instructions[0].has_parent());
    assert!(instructions[0].parent(&instructions).is_none());
    assert!(instructions[1].has_parent());
    assert_eq!(instructions[1].parent(&instructions).unwrap().program_account_index, 2);
    let accounts = accounts();
    assert_eq!(instructions[0].program_account(&accounts).address, [2; 32]);
    assert_eq!(instructions[1].data(), &[9]);
}

#[test]
fn transaction_context_views() {
    let accounts = accounts();
    let instructions = vec![
        InstructionContext::new(2, 0, u16::MAX, vec![], vec![]),
        InstructionContext::new(1, 1, 0, vec![], vec![]),
        InstructionContext::new(1, 1, 0, vec![], vec![]),
    ];
    let transaction = TransactionContext::new(1, 2, 1, 2);
    assert_eq!(transaction.accounts(&accounts).len(), 2);
    assert_eq!(transaction.cpi_count(), 1);
    assert_eq!(transaction.instruction_count(), 2);
    assert_eq!(transaction.instructions(&instructions).len(), 2);
    assert_eq!(transaction.current_instruction(&instructions).nesting_level, 1);
    assert_eq!(TransactionContext::payer(&accounts).lamports(), 0);
}

#[test]
fn flat_context_views() {
    let accounts = accounts();
    let context = Context::new(
        ReturnData::new([0; 32], 0x4_0000_0000, vec![]),
        CpiInvokeParams::new(0x4_0000_1000, vec![], 0x4_0000_2000, vec![1, 2]),
        0,
        1,
        0,
        3,
    );
    let instructions = vec![Instruction::new(1, 0, u16::MAX, vec![], vec![])];
    assert_eq!(context.accounts(&accounts).len(), 3);
    assert_eq!(context.cpi_count(), 0);
    assert_eq!(context.instruction_count(), 1);
    assert!(context.current_instruction(&instructions).is_top_level());
    assert_eq!(context.instructions(&instructions).len(), 1);
    assert_eq!(context.payer(&accounts).address, [0; 32]);
    let params = CpiInvokeParams::new(0, vec![], 0, vec![1, 2]);
    assert_eq!(params.instruction_data(), &[1, 2]);
    assert!(params.accounts().is_empty());
}
