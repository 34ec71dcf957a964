use gambatee::rarety::Rarety;

#[test]
fn test_common_drop_date() {
    let common = Rarety::Common(50);

    assert_eq!(common.drop_rate(), 50)
}

#[test]
fn test_rare_drop_date() {
    let rare = Rarety::Rare(50);

    assert_eq!(rare.drop_rate(), 50)
}

#[test]
fn test_epic_drop_date() {
    let epic = Rarety::Epic(50);

    assert_eq!(epic.drop_rate(), 50)
}

#[test]
fn test_legendary_drop_date() {
    let legendary = Rarety::Legendary(50);

    assert_eq!(legendary.drop_rate(), 50)
}
