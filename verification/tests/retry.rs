use companion::retry::AttemptBudget;

#[test]
fn a_fresh_budget_has_used_nothing() {
    let budget = AttemptBudget::new(3, 250);
    assert_eq!(budget.used(), 0);
    assert_eq!(budget.interval_ms(), 250);
    assert!(!budget.exhausted());
}

#[test]
fn every_failure_but_the_last_is_followed_by_a_pause() {
    let mut budget = AttemptBudget::new(3, 250);
    assert_eq!(budget.spend(), Some(250));
    assert_eq!(budget.used(), 1);
    assert_eq!(budget.spend(), Some(250));
    assert_eq!(budget.used(), 2);
    assert!(!budget.exhausted());
    assert_eq!(budget.spend(), None);
    assert_eq!(budget.used(), 3);
    assert!(budget.exhausted());
}

#[test]
fn an_exhausted_budget_stays_exhausted() {
    let mut budget = AttemptBudget::new(1, 10);
    assert_eq!(budget.spend(), None);
    assert!(budget.exhausted());
    assert_eq!(budget.spend(), None);
    assert_eq!(budget.used(), 1);
}

#[test]
fn a_budget_of_nothing_is_exhausted_from_the_start() {
    let mut budget = AttemptBudget::new(0, 10);
    assert!(budget.exhausted());
    assert_eq!(budget.spend(), None);
    assert_eq!(budget.used(), 0);
}
