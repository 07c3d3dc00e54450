use hello_hv::a64::{
    ADD_X0_X0_X1, AND_X0_X0_X1, BRK_0, BRK_EXIT_TEST, EOR_X0_X0_X1, LDR_X0_X1, LSL_X0_X1_4,
    MOV_X0_0X42, MOV_X0_42, MOV_X1_8, ORR_X0_X0_X1, STR_X2_X1, SUB_X0_X0_X1,
};

#[test]
fn instruction_words_as_written_into_guest_memory() {
    assert_eq!(MOV_X0_0X42, 0xd2800840);
    assert_eq!(MOV_X0_42, 0xd2800540);
    assert_eq!(MOV_X1_8, 0xd2800101);
    assert_eq!(ADD_X0_X0_X1, 0x8b010000);
    assert_eq!(SUB_X0_X0_X1, 0xcb010000);
    assert_eq!(AND_X0_X0_X1, 0x8a010000);
    assert_eq!(ORR_X0_X0_X1, 0xaa010000);
    assert_eq!(EOR_X0_X0_X1, 0xca010000);
    assert_eq!(LSL_X0_X1_4, 0xaa0113e0);
    assert_eq!(STR_X2_X1, 0xf9000022);
    assert_eq!(LDR_X0_X1, 0xf9400020);
    assert_eq!(BRK_0, 0xd4200000);
    assert_eq!(BRK_EXIT_TEST, 0xd4202460);
}

#[test]
fn breakpoint_immediates() {
    // brk #imm16 keeps its immediate in bits 5..21.
    assert_eq!((BRK_0 >> 5) & 0xffff, 0);
    assert_eq!((BRK_EXIT_TEST >> 5) & 0xffff, 0x123);
}

#[test]
fn movz_immediates_and_registers() {
    assert_eq!(((MOV_X0_0X42 >> 5) & 0xffff, MOV_X0_0X42 & 0x1f), (0x42, 0));
    assert_eq!(((MOV_X0_42 >> 5) & 0xffff, MOV_X0_42 & 0x1f), (42, 0));
    assert_eq!(((MOV_X1_8 >> 5) & 0xffff, MOV_X1_8 & 0x1f), (8, 1));
}
