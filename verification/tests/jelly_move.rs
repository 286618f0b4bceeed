use protocol_units::jelly_move::{change_set_updates, module_key, resource_key, update_nibble, ModuleChange, Op, ResourceChange};

#[test]
fn keys_are_prefixed_serializations() {
    assert_eq!(module_key(b"{\"a\":1}"), b"MODULE::{\"a\":1}".to_vec());
    assert_eq!(module_key(b""), b"MODULE::".to_vec());
    assert_eq!(resource_key(b"\"0x2a\"", b"{\"t\":0}"), b"RESOURCE::\"0x2a\"{\"t\":0}".to_vec());
}

#[test]
fn change_sets_become_updates() {
    let modules = vec![
        ModuleChange { serialized_id: b"m1".to_vec(), op: Op::New(vec![1, 2]) },
        ModuleChange { serialized_id: b"m2".to_vec(), op: Op::Delete },
    ];
    let resources = vec![ResourceChange { serialized_address: b"a".to_vec(), serialized_tag: b"t".to_vec(), op: Op::Modify(vec![3]) }];
    let updates = change_set_updates(modules, resources);
    assert_eq!(
        updates,
        vec![
            (b"MODULE::m1".to_vec(), Some(vec![1, 2])),
            (b"MODULE::m2".to_vec(), None),
            (b"RESOURCE::at".to_vec(), Some(vec![3])),
        ]
    );
    assert!(change_set_updates(vec![], vec![]).is_empty());
}

#[test]
fn nibbles_update_in_place() {
    let key = [0xab; 32];
    let high = update_nibble(key, 0, 0x3);
    assert_eq!(high[0], 0x3b);
    assert_eq!(&high[1..], &key[1..]);
    let low = update_nibble(key, 63, 0x0);
    assert_eq!(low[31], 0xa0);
    assert_eq!(&low[..31], &key[..31]);
    assert_eq!(update_nibble(key, 5, 0xb)[2], 0xab);
}

#[test]
fn module_and_resource_keys_never_meet() {
    assert_ne!(module_key(b"RESOURCE::x"), resource_key(b"", b"x"));
    assert_ne!(module_key(b"a"), module_key(b"b"));
    assert_ne!(resource_key(b"ab", b"c"), resource_key(b"ac", b"b"));
}
