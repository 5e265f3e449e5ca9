use lkbc_autosplitter::module::ModuleImage;
use lkbc_autosplitter::remote::{Fetch, MemoryImage, PointerSize, ReadRequest};
use lkbc_autosplitter::scene_manager::{get_scene_name, Offsets, Scene, SceneManager};

const MODULE_BASE: u64 = 0x7FF6_1000_0000;

fn module_bytes(machine: u16) -> Vec<u8> {
    let mut bytes = vec![0xCCu8; 0x400];
    bytes[0x3C..0x40].copy_from_slice(&0x80u32.to_le_bytes());
    bytes[0x84..0x86].copy_from_slice(&machine.to_le_bytes());
    bytes
}

fn module_64(at: usize, middle: u8, displacement: i32) -> ModuleImage {
    let mut bytes = module_bytes(0x8664);
    bytes[at..at + 7].copy_from_slice(&[0x48, 0x83, 0xEC, 0x20, 0x4C, 0x8B, middle]);
    bytes[at + 7..at + 11].copy_from_slice(&displacement.to_le_bytes());
    bytes[at + 11..at + 13].copy_from_slice(&[0x33, 0xF6]);
    ModuleImage::new(MODULE_BASE, bytes).unwrap()
}

fn shape_1(bytes: &mut [u8], at: usize, address: u32) {
    bytes[at..at + 5].copy_from_slice(&[0x55, 0x8B, 0xEC, 0x51, 0xA1]);
    bytes[at + 5..at + 9].copy_from_slice(&address.to_le_bytes());
    bytes[at + 9..at + 12].copy_from_slice(&[0x53, 0x33, 0xDB]);
}

fn shape_2(bytes: &mut [u8], at: usize, address: u32) {
    bytes[at - 4..at].copy_from_slice(&address.to_le_bytes());
    bytes[at..at + 6].copy_from_slice(&[0x53, 0x8D, 0x41, 0x7A, 0x33, 0xDB]);
}

fn shape_3(bytes: &mut [u8], at: usize, address: u32) {
    bytes[at..at + 7].copy_from_slice(&[0x55, 0x8B, 0xEC, 0x83, 0xEC, 0x18, 0xA1]);
    bytes[at + 7..at + 11].copy_from_slice(&address.to_le_bytes());
    bytes[at + 11..at + 14].copy_from_slice(&[0x33, 0xC9, 0x53]);
}

fn image_with(entries: &[(u64, Option<Vec<u8>>)]) -> MemoryImage {
    let mut image = MemoryImage::new();
    for (address, answer) in entries {
        let len = match answer {
            Some(bytes) => bytes.len(),
            None => 8,
        };
        image.record(ReadRequest { address: *address, len }, answer.clone());
    }
    image
}

fn manager_64(address: u64) -> SceneManager {
    SceneManager {
        pointer_size: PointerSize::Bit64,
        address,
        offsets: Offsets::new(PointerSize::Bit64),
    }
}

#[test]
fn offsets_depend_on_the_pointer_width() {
    assert_eq!(Offsets::new(PointerSize::Bit64), Offsets { active_scene: 0x48, asset_path: 0x10 });
    assert_eq!(Offsets::new(PointerSize::Bit32), Offsets { active_scene: 0x28, asset_path: 0x0C });
}

#[test]
fn attach_64_adds_the_displacement_to_the_end_of_the_instruction() {
    let module = module_64(0x200, 0x05, 0x1000);
    let location = MODULE_BASE + 0x200 + 7 + 4 + 0x1000;
    let image = image_with(&[(location, Some(0x0000_0001_4000_2000u64.to_le_bytes().to_vec()))]);
    assert_eq!(
        SceneManager::attach(&module, &image),
        Fetch::Ready(Some(SceneManager {
            pointer_size: PointerSize::Bit64,
            address: 0x0000_0001_4000_2000,
            offsets: Offsets { active_scene: 0x48, asset_path: 0x10 },
        }))
    );
}

#[test]
fn attach_64_takes_a_negative_displacement() {
    let module = module_64(0x200, 0x35, -0x120);
    let location = MODULE_BASE + 0x200 + 11 - 0x120;
    let image = image_with(&[(location, Some(0x5000u64.to_le_bytes().to_vec()))]);
    assert_eq!(
        SceneManager::attach(&module, &image),
        Fetch::Ready(Some(manager_64(0x5000)))
    );
}

#[test]
fn attach_64_wants_the_low_half_of_the_register_byte() {
    let module = module_64(0x200, 0x06, 0x1000);
    let image = MemoryImage::new();
    assert_eq!(SceneManager::attach(&module, &image), Fetch::Ready(None));
}

#[test]
fn attach_asks_for_the_pointer_it_lacks() {
    let module = module_64(0x200, 0x05, 0x1000);
    let location = MODULE_BASE + 0x200 + 7 + 4 + 0x1000;
    let image = MemoryImage::new();
    assert_eq!(
        SceneManager::attach(&module, &image),
        Fetch::Need(ReadRequest { address: location, len: 8 })
    );
}

#[test]
fn attach_uses_the_lowest_match() {
    let mut bytes = module_64(0x300, 0x05, 0x2000).bytes().to_vec();
    bytes[0x200..0x207].copy_from_slice(&[0x48, 0x83, 0xEC, 0x20, 0x4C, 0x8B, 0x15]);
    bytes[0x207..0x20B].copy_from_slice(&0x1000i32.to_le_bytes());
    bytes[0x20B..0x20D].copy_from_slice(&[0x33, 0xF6]);
    let module = ModuleImage::new(MODULE_BASE, bytes).unwrap();
    let image = MemoryImage::new();
    assert_eq!(
        SceneManager::attach(&module, &image),
        Fetch::Need(ReadRequest { address: MODULE_BASE + 0x200 + 11 + 0x1000, len: 8 })
    );
}

#[test]
fn attach_rejects_a_null_pointer() {
    let module = module_64(0x200, 0x05, 0x1000);
    let location = MODULE_BASE + 0x200 + 7 + 4 + 0x1000;
    let image = image_with(&[(location, Some(vec![0; 8]))]);
    assert_eq!(SceneManager::attach(&module, &image), Fetch::Ready(None));
}

#[test]
fn attach_rejects_a_pointer_that_cannot_be_read() {
    let module = module_64(0x200, 0x05, 0x1000);
    let location = MODULE_BASE + 0x200 + 7 + 4 + 0x1000;
    let image = image_with(&[(location, None)]);
    assert_eq!(SceneManager::attach(&module, &image), Fetch::Ready(None));
}

#[test]
fn attach_rejects_a_location_outside_the_address_space() {
    let mut bytes = module_bytes(0x8664);
    bytes[0x200..0x207].copy_from_slice(&[0x48, 0x83, 0xEC, 0x20, 0x4C, 0x8B, 0x05]);
    bytes[0x207..0x20B].copy_from_slice(&(-0x1000i32).to_le_bytes());
    bytes[0x20B..0x20D].copy_from_slice(&[0x33, 0xF6]);
    let module = ModuleImage::new(0x10, bytes.clone()).unwrap();
    assert_eq!(SceneManager::attach(&module, &MemoryImage::new()), Fetch::Ready(None));
    bytes[0x207..0x20B].copy_from_slice(&0x7FFF_FFFFi32.to_le_bytes());
    let module = ModuleImage::new(u64::MAX - 0x400, bytes).unwrap();
    assert_eq!(SceneManager::attach(&module, &MemoryImage::new()), Fetch::Ready(None));
}

#[test]
fn attach_without_a_pattern_finds_nothing() {
    let module = ModuleImage::new(MODULE_BASE, module_bytes(0x8664)).unwrap();
    assert_eq!(SceneManager::attach(&module, &MemoryImage::new()), Fetch::Ready(None));
    let module = ModuleImage::new(MODULE_BASE, module_bytes(0x014C)).unwrap();
    assert_eq!(SceneManager::attach(&module, &MemoryImage::new()), Fetch::Ready(None));
}

#[test]
fn attach_without_a_header_finds_nothing() {
    let module = ModuleImage::new(MODULE_BASE, vec![0u8; 0x20]).unwrap();
    assert_eq!(SceneManager::attach(&module, &MemoryImage::new()), Fetch::Ready(None));
    let module = ModuleImage::new(MODULE_BASE, vec![]).unwrap();
    assert_eq!(SceneManager::attach(&module, &MemoryImage::new()), Fetch::Ready(None));
}

#[test]
fn attach_32_reads_the_address_inside_the_first_shape() {
    let mut bytes = module_bytes(0x014C);
    shape_1(&mut bytes, 0x200, 0x0123_4560);
    let module = ModuleImage::new(0x40_0000, bytes).unwrap();
    let image = image_with(&[(0x0123_4560, Some(0x0700_0000u32.to_le_bytes().to_vec()))]);
    assert_eq!(
        SceneManager::attach(&module, &image),
        Fetch::Ready(Some(SceneManager {
            pointer_size: PointerSize::Bit32,
            address: 0x0700_0000,
            offsets: Offsets { active_scene: 0x28, asset_path: 0x0C },
        }))
    );
}

#[test]
fn attach_32_reads_the_address_before_the_second_shape() {
    let mut bytes = module_bytes(0x014C);
    shape_2(&mut bytes, 0x200, 0x0123_4570);
    let module = ModuleImage::new(0x40_0000, bytes).unwrap();
    assert_eq!(
        SceneManager::attach(&module, &MemoryImage::new()),
        Fetch::Need(ReadRequest { address: 0x0123_4570, len: 4 })
    );
}

#[test]
fn attach_32_reads_the_address_inside_the_third_shape() {
    let mut bytes = module_bytes(0x014C);
    shape_3(&mut bytes, 0x200, 0x0123_4580);
    let module = ModuleImage::new(0x40_0000, bytes).unwrap();
    assert_eq!(
        SceneManager::attach(&module, &MemoryImage::new()),
        Fetch::Need(ReadRequest { address: 0x0123_4580, len: 4 })
    );
}

#[test]
fn attach_32_prefers_the_first_shape_wherever_it_stands() {
    let mut bytes = module_bytes(0x014C);
    shape_3(&mut bytes, 0x100, 0x3333_3330);
    shape_2(&mut bytes, 0x200, 0x2222_2220);
    shape_1(&mut bytes, 0x300, 0x1111_1110);
    let module = ModuleImage::new(0x40_0000, bytes).unwrap();
    assert_eq!(
        SceneManager::attach(&module, &MemoryImage::new()),
        Fetch::Need(ReadRequest { address: 0x1111_1110, len: 4 })
    );
}

#[test]
fn attach_32_prefers_the_second_shape_over_the_third() {
    let mut bytes = module_bytes(0x014C);
    shape_3(&mut bytes, 0x100, 0x3333_3330);
    shape_2(&mut bytes, 0x200, 0x2222_2220);
    let module = ModuleImage::new(0x40_0000, bytes).unwrap();
    assert_eq!(
        SceneManager::attach(&module, &MemoryImage::new()),
        Fetch::Need(ReadRequest { address: 0x2222_2220, len: 4 })
    );
}

#[test]
fn attach_ignores_the_shapes_of_the_other_width() {
    let mut bytes = module_bytes(0x8664);
    shape_1(&mut bytes, 0x300, 0x1111_1110);
    let module = ModuleImage::new(0x40_0000, bytes).unwrap();
    assert_eq!(SceneManager::attach(&module, &MemoryImage::new()), Fetch::Ready(None));
}

#[test]
fn current_scene_is_the_pointer_at_the_active_scene_offset() {
    let manager = manager_64(0x1_0000);
    let image = image_with(&[(0x1_0048, Some(0x2_0000u64.to_le_bytes().to_vec()))]);
    assert_eq!(
        manager.get_current_scene(&image),
        Fetch::Ready(Some(Scene { address: 0x2_0000 }))
    );
}

#[test]
fn current_scene_of_a_32_bit_process() {
    let manager = SceneManager {
        pointer_size: PointerSize::Bit32,
        address: 0x1_0000,
        offsets: Offsets::new(PointerSize::Bit32),
    };
    let image = image_with(&[(0x1_0028, Some(0x2_0000u32.to_le_bytes().to_vec()))]);
    assert_eq!(
        manager.get_current_scene(&image),
        Fetch::Ready(Some(Scene { address: 0x2_0000 }))
    );
}

#[test]
fn no_scene_while_the_pointer_is_null() {
    let manager = manager_64(0x1_0000);
    let image = image_with(&[(0x1_0048, Some(vec![0; 8]))]);
    assert_eq!(manager.get_current_scene(&image), Fetch::Ready(None));
    assert_eq!(manager.get_current_scene_path(&image, 128), Fetch::Ready(None));
}

#[test]
fn no_scene_when_the_read_fails() {
    let manager = manager_64(0x1_0000);
    let image = image_with(&[(0x1_0048, None)]);
    assert_eq!(manager.get_current_scene(&image), Fetch::Ready(None));
}

#[test]
fn no_scene_when_the_slot_lies_outside_the_address_space() {
    let manager = manager_64(u64::MAX - 0x10);
    assert_eq!(manager.get_current_scene(&MemoryImage::new()), Fetch::Ready(None));
}

#[test]
fn current_scene_asks_for_the_read_it_lacks() {
    let manager = manager_64(0x1_0000);
    assert_eq!(
        manager.get_current_scene(&MemoryImage::new()),
        Fetch::Need(ReadRequest { address: 0x1_0048, len: 8 })
    );
}

#[test]
fn scene_path_follows_the_asset_path_pointer() {
    let manager = manager_64(0x1_0000);
    let scene = Scene { address: 0x2_0000 };
    let mut text = b"Assets/Scenes/Level_X.unity".to_vec();
    text.resize(128, 0);
    let image = image_with(&[
        (0x2_0010, Some(0x3_0000u64.to_le_bytes().to_vec())),
        (0x3_0000, Some(text)),
    ]);
    assert_eq!(
        scene.path(&image, &manager, 128),
        Fetch::Ready(Some(b"Assets/Scenes/Level_X.unity".to_vec()))
    );
}

#[test]
fn scene_path_is_cut_off_at_the_limit() {
    let manager = manager_64(0x1_0000);
    let scene = Scene { address: 0x2_0000 };
    let image = image_with(&[
        (0x2_0010, Some(0x3_0000u64.to_le_bytes().to_vec())),
        (0x3_0000, Some(b"Assets/S".to_vec())),
    ]);
    assert_eq!(scene.path(&image, &manager, 8), Fetch::Ready(Some(b"Assets/S".to_vec())));
}

#[test]
fn scene_path_steps_through_its_reads() {
    let manager = manager_64(0x1_0000);
    let mut image = MemoryImage::new();
    assert_eq!(
        manager.get_current_scene_path(&image, 16),
        Fetch::Need(ReadRequest { address: 0x1_0048, len: 8 })
    );
    image.record(
        ReadRequest { address: 0x1_0048, len: 8 },
        Some(0x2_0000u64.to_le_bytes().to_vec()),
    );
    assert_eq!(
        manager.get_current_scene_path(&image, 16),
        Fetch::Need(ReadRequest { address: 0x2_0010, len: 8 })
    );
    image.record(
        ReadRequest { address: 0x2_0010, len: 8 },
        Some(0x3_0000u64.to_le_bytes().to_vec()),
    );
    assert_eq!(
        manager.get_current_scene_path(&image, 16),
        Fetch::Need(ReadRequest { address: 0x3_0000, len: 16 })
    );
    image.record(ReadRequest { address: 0x3_0000, len: 16 }, Some(b"Loading.unity\0\0\0".to_vec()));
    assert_eq!(
        manager.get_current_scene_path(&image, 16),
        Fetch::Ready(Some(b"Loading.unity".to_vec()))
    );
}

#[test]
fn scene_path_fails_on_a_null_text_pointer() {
    let manager = manager_64(0x1_0000);
    let scene = Scene { address: 0x2_0000 };
    let image = image_with(&[(0x2_0010, Some(vec![0; 8]))]);
    assert_eq!(scene.path(&image, &manager, 128), Fetch::Ready(None));
}

#[test]
fn scene_path_fails_when_the_text_cannot_be_read() {
    let manager = manager_64(0x1_0000);
    let scene = Scene { address: 0x2_0000 };
    let mut image = image_with(&[(0x2_0010, Some(0x3_0000u64.to_le_bytes().to_vec()))]);
    image.record(ReadRequest { address: 0x3_0000, len: 128 }, None);
    assert_eq!(scene.path(&image, &manager, 128), Fetch::Ready(None));
}

#[test]
fn scene_name_is_the_file_name_without_its_extension() {
    assert_eq!(get_scene_name(b"Assets/Scenes/Level_X.unity"), b"Level_X");
    assert_eq!(get_scene_name(b"Assets/Loading.unity"), b"Loading");
}

#[test]
fn scene_name_of_a_bare_name() {
    assert_eq!(get_scene_name(b"MainMenu_LKBC"), b"MainMenu_LKBC");
    assert_eq!(get_scene_name(b"MainMenu_LKBC.unity"), b"MainMenu_LKBC");
}

#[test]
fn scene_name_stops_at_the_first_extension_mark() {
    assert_eq!(get_scene_name(b"a/b.c/d.e.f"), b"d");
    assert_eq!(get_scene_name(b"a.b/c"), b"c");
}

#[test]
fn scene_name_of_a_path_that_ends_in_a_separator_is_empty() {
    assert_eq!(get_scene_name(b"Assets/Scenes/"), b"");
    assert_eq!(get_scene_name(b""), b"");
    assert_eq!(get_scene_name(b"/"), b"");
    assert_eq!(get_scene_name(b"Assets/.hidden"), b"");
}
