use copic::same_text;

#[test]
fn same_text_compares_exactly() {
    assert!(same_text("", ""));
    assert!(same_text("BV0000", "BV0000"));
    assert!(!same_text("BV0000", "BV000"));
    assert!(!same_text("BV01", "BV02"));
    assert!(!same_text("r29", "R29"));
    assert!(same_text("Café", "Café"));
    assert!(!same_text("Café", "Cafe"));
}
