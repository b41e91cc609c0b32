use vendor_bot::role_map::RoleMap;

fn text(s: &str) -> String {
    s.to_string()
}

#[test]
fn new_map_binds_nothing() {
    let roles = RoleMap::new();
    assert_eq!(roles.role(&text("srv1"), &text("emo1")), None);
    assert_eq!(roles.role(&String::new(), &String::new()), None);
}

#[test]
fn insert_binds_one_pair() {
    let mut roles = RoleMap::new();
    roles.insert(text("srv1"), text("emo1"), text("hedgehog"));
    assert_eq!(roles.role(&text("srv1"), &text("emo1")), Some(&text("hedgehog")));
    assert_eq!(roles.role(&text("srv1"), &text("emo2")), None);
    assert_eq!(roles.role(&text("srv2"), &text("emo1")), None);
    assert_eq!(roles.role(&text("emo1"), &text("srv1")), None);
}

#[test]
fn insert_replaces_the_role_of_a_bound_pair() {
    let mut roles = RoleMap::new();
    roles.insert(text("srv1"), text("emo1"), text("hedgehog"));
    roles.insert(text("srv1"), text("emo2"), text("fox"));
    roles.insert(text("srv1"), text("emo1"), text("badger"));
    assert_eq!(roles.role(&text("srv1"), &text("emo1")), Some(&text("badger")));
    assert_eq!(roles.role(&text("srv1"), &text("emo2")), Some(&text("fox")));
}

#[test]
fn same_emoji_in_two_servers_is_two_bindings() {
    let mut roles = RoleMap::new();
    roles.insert(text("srv1"), text("emo1"), text("hedgehog"));
    roles.insert(text("srv2"), text("emo1"), text("fox"));
    assert_eq!(roles.role(&text("srv1"), &text("emo1")), Some(&text("hedgehog")));
    assert_eq!(roles.role(&text("srv2"), &text("emo1")), Some(&text("fox")));
}
