use render_color::asset::{AssetStorage, Handle, DEFAULT_HANDLE_ID};
use render_color::bind::GetBytes;
use render_color::ui::{UiPlugin, QUAD_HANDLE_ID};

#[test]
fn second_insert_under_fixed_handle_wins() {
    let mut table: AssetStorage<&str> = AssetStorage::new();
    let h = Handle::from_u128(QUAD_HANDLE_ID);
    assert!(!table.add_with_handle(h, "first plugin's mesh"));
    assert!(table.add_with_handle(h, "second plugin's mesh"));
    assert_eq!(table.get(h), Some(&"second plugin's mesh"));
}

#[test]
fn lookups_by_handle() {
    let mut table: AssetStorage<u32> = AssetStorage::new();
    assert_eq!(table.get(Handle::from_u128(1)), None);
    table.add_with_handle(Handle::from_u128(1), 10);
    table.add_with_handle(Handle::from_u128(2), 20);
    table.add_with_handle(Handle::from_u128(1), 11);
    assert_eq!(table.get(Handle::from_u128(1)), Some(&11));
    assert_eq!(table.get(Handle::from_u128(2)), Some(&20));
    assert!(!table.contains(Handle::from_u128(3)));
    assert!(!table.add_default(5));
    assert_eq!(table.get(Handle::default_handle()), Some(&5));
    assert_eq!(Handle::<u32>::default_handle().id, DEFAULT_HANDLE_ID);
}

#[test]
fn handle_from_bytes_is_big_endian() {
    let quad = Handle::<&str>::from_bytes([
        179, 41, 129, 128, 95, 217, 79, 194, 167, 95, 107, 115, 97, 151, 20, 62,
    ]);
    assert_eq!(quad.id, QUAD_HANDLE_ID);
    assert_eq!(quad, UiPlugin::quad_handle());
    let mut one = [0u8; 16];
    one[15] = 1;
    assert_eq!(Handle::<u8>::from_bytes(one).id, 1);
    assert_eq!(Handle::<u8>::from_bytes([0xff; 16]).id, u128::MAX);
    assert_eq!(Handle::<u8>::from_bytes([0; 16]).id, 0);
}

#[test]
fn handle_has_no_bytes() {
    let h = Handle::<u8>::from_u128(9);
    assert!(h.get_bytes().is_empty());
    assert_eq!(h.get_bytes_ref(), None);
}

#[test]
fn plugins_sharing_the_quad_handle() {
    let mut meshes: AssetStorage<&str> = AssetStorage::new();
    let (materials, taken) = UiPlugin.build("default material", &mut meshes, "quad one");
    assert!(!taken);
    assert_eq!(materials.get(Handle::default_handle()), Some(&"default material"));
    assert_eq!(meshes.get(UiPlugin::quad_handle()), Some(&"quad one"));
    let (_, taken) = UiPlugin.build("other", &mut meshes, "quad two");
    assert!(taken);
    assert_eq!(meshes.get(UiPlugin::quad_handle()), Some(&"quad two"));
}
