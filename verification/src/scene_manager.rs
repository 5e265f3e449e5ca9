//! Finding the engine's scene manager in the player module, and asking it
//! which scene is active.

use vstd::prelude::*;
use vstd::slice::slice_subrange;
use crate::bytes::{
    as_signed_32, c_string, c_string_of, i32_at, le_u32, lemma_prefix_before, prefix_before,
    prefix_len_before, u32_at, window,
};
use crate::module::{pointer_size_of, machine_marker, ModuleImage};
use crate::remote::{address_of, fetched_bytes, Fetch, MemoryImage, PointerSize};
use crate::signature::{first_match, lemma_first_match, pattern_of, PatternByte, Signature};

verus! {

/// The code that loads the scene manager's address in 64-bit builds. The
/// four open positions hold a displacement relative to the end of the
/// instruction they belong to.
pub open spec fn sig_64_bit() -> Seq<PatternByte> {
    pattern_of(
        seq![0x48u8, 0x83, 0xEC, 0x20, 0x4C, 0x8B, 0x05, 0x00, 0x00, 0x00, 0x00, 0x33, 0xF6],
        seq![0xFFu8, 0xFF, 0xFF, 0xFF, 0xFF, 0xFF, 0x0F, 0x00, 0x00, 0x00, 0x00, 0xFF, 0xFF],
    )
}

/// The first of three shapes the same code takes in 32-bit builds. Its open
/// positions hold the address itself.
pub open spec fn sig_32_1() -> Seq<PatternByte> {
    pattern_of(
        seq![0x55u8, 0x8B, 0xEC, 0x51, 0xA1, 0x00, 0x00, 0x00, 0x00, 0x53, 0x33, 0xDB],
        seq![0xFFu8, 0xFF, 0xFF, 0xFF, 0xFF, 0x00, 0x00, 0x00, 0x00, 0xFF, 0xFF, 0xFF],
    )
}

/// The second 32-bit shape. The address stands in the four bytes before it.
pub open spec fn sig_32_2() -> Seq<PatternByte> {
    pattern_of(
        seq![0x53u8, 0x8D, 0x41, 0x00, 0x33, 0xDB],
        seq![0xFFu8, 0xFF, 0xFF, 0x00, 0xFF, 0xFF],
    )
}

/// The third 32-bit shape. Its open positions hold the address itself.
pub open spec fn sig_32_3() -> Seq<PatternByte> {
    pattern_of(
        seq![
            0x55u8,
            0x8B,
            0xEC,
            0x83,
            0xEC,
            0x18,
            0xA1,
            0x00,
            0x00,
            0x00,
            0x00,
            0x33,
            0xC9,
            0x53,
        ],
        seq![
            0xFFu8,
            0xFF,
            0xFF,
            0xFF,
            0xFF,
            0xFF,
            0xFF,
            0x00,
            0x00,
            0x00,
            0x00,
            0xFF,
            0xFF,
            0xFF,
        ],
    )
}

/// Where a 64-bit module keeps the scene manager's address: the displacement
/// in the matched instruction, added to the address at which that
/// instruction ends.
pub open spec fn pointer_location_64(base: u64, bytes: Seq<u8>) -> Option<u64> {
    match first_match(sig_64_bit(), bytes) {
        None => None,
        Some(at) => address_of(
            base + at + 7 + 4 + as_signed_32(le_u32(window(bytes, at + 7, 4))),
        ),
    }
}

/// Where a 32-bit module keeps the scene manager's address. The three shapes
/// are tried in order; the first that occurs decides, also where it yields
/// nothing.
pub open spec fn pointer_location_32(bytes: Seq<u8>) -> Option<u64> {
    match first_match(sig_32_1(), bytes) {
        Some(at) => Some(le_u32(window(bytes, at + 5, 4)) as u64),
        None => match first_match(sig_32_2(), bytes) {
            Some(at) => if at >= 4 {
                Some(le_u32(window(bytes, at - 4, 4)) as u64)
            } else {
                None
            },
            None => match first_match(sig_32_3(), bytes) {
                Some(at) => Some(le_u32(window(bytes, at + 7, 4)) as u64),
                None => None,
            },
        },
    }
}

/// Where a module of the given pointer width keeps the scene manager's
/// address.
pub open spec fn pointer_location(base: u64, bytes: Seq<u8>, size: PointerSize) -> Option<u64> {
    match size {
        PointerSize::Bit64 => pointer_location_64(base, bytes),
        PointerSize::Bit32 => pointer_location_32(bytes),
    }
}

/// The offsets, inside the engine's structures, of the fields this library
/// reads.
#[derive(Clone, Copy, PartialEq, Eq, Structural, Debug)]
pub struct Offsets {
    /// In the scene manager: the pointer to the active scene.
    pub active_scene: u8,
    /// In a scene: the pointer to the text of its asset path.
    pub asset_path: u8,
}

impl Offsets {
    pub open spec fn spec_new(pointer_size: PointerSize) -> Offsets {
        match pointer_size {
            PointerSize::Bit64 => Offsets { active_scene: 0x48, asset_path: 0x10 },
            PointerSize::Bit32 => Offsets { active_scene: 0x28, asset_path: 0xC },
        }
    }

    /// The offsets that hold for the given pointer width.
    #[verifier::when_used_as_spec(spec_new)]
    pub fn new(pointer_size: PointerSize) -> (offsets: Offsets)
        ensures
            offsets == Offsets::spec_new(pointer_size),
    {
        match pointer_size {
            PointerSize::Bit64 => Offsets { active_scene: 0x48, asset_path: 0x10 },
            PointerSize::Bit32 => Offsets { active_scene: 0x28, asset_path: 0xC },
        }
    }
}

/// The engine's scene manager, located once per session.
#[derive(Clone, Copy, PartialEq, Eq, Structural, Debug)]
pub struct SceneManager {
    pub pointer_size: PointerSize,
    /// The address of the scene manager itself. It stays the same for as long
    /// as the process lives, and is never null.
    pub address: u64,
    pub offsets: Offsets,
}

/// A scene that is loaded in the watched process.
#[derive(Clone, Copy, PartialEq, Eq, Structural, Debug)]
pub struct Scene {
    pub address: u64,
}

fn signature_64_bit() -> (signature: Signature)
    ensures
        signature@ == sig_64_bit(),
{
    let values: [u8; 13] = [
        0x48,
        0x83,
        0xEC,
        0x20,
        0x4C,
        0x8B,
        0x05,
        0x00,
        0x00,
        0x00,
        0x00,
        0x33,
        0xF6,
    ];
    let masks: [u8; 13] = [
        0xFF,
        0xFF,
        0xFF,
        0xFF,
        0xFF,
        0xFF,
        0x0F,
        0x00,
        0x00,
        0x00,
        0x00,
        0xFF,
        0xFF,
    ];
    assert(values@ =~= seq![
        0x48u8,
        0x83,
        0xEC,
        0x20,
        0x4C,
        0x8B,
        0x05,
        0x00,
        0x00,
        0x00,
        0x00,
        0x33,
        0xF6,
    ]);
    assert(masks@ =~= seq![
        0xFFu8,
        0xFF,
        0xFF,
        0xFF,
        0xFF,
        0xFF,
        0x0F,
        0x00,
        0x00,
        0x00,
        0x00,
        0xFF,
        0xFF,
    ]);
    match Signature::new(values.as_slice(), masks.as_slice()) {
        Some(signature) => signature,
        None => Signature { positions: Vec::new() },
    }
}

fn signature_32_1() -> (signature: Signature)
    ensures
        signature@ == sig_32_1(),
{
    let values: [u8; 12] = [0x55, 0x8B, 0xEC, 0x51, 0xA1, 0x00, 0x00, 0x00, 0x00, 0x53, 0x33, 0xDB];
    let masks: [u8; 12] = [0xFF, 0xFF, 0xFF, 0xFF, 0xFF, 0x00, 0x00, 0x00, 0x00, 0xFF, 0xFF, 0xFF];
    assert(values@ =~= seq![
        0x55u8,
        0x8B,
        0xEC,
        0x51,
        0xA1,
        0x00,
        0x00,
        0x00,
        0x00,
        0x53,
        0x33,
        0xDB,
    ]);
    assert(masks@ =~= seq![
        0xFFu8,
        0xFF,
        0xFF,
        0xFF,
        0xFF,
        0x00,
        0x00,
        0x00,
        0x00,
        0xFF,
        0xFF,
        0xFF,
    ]);
    match Signature::new(values.as_slice(), masks.as_slice()) {
        Some(signature) => signature,
        None => Signature { positions: Vec::new() },
    }
}

fn signature_32_2() -> (signature: Signature)
    ensures
        signature@ == sig_32_2(),
{
    let values: [u8; 6] = [0x53, 0x8D, 0x41, 0x00, 0x33, 0xDB];
    let masks: [u8; 6] = [0xFF, 0xFF, 0xFF, 0x00, 0xFF, 0xFF];
    assert(values@ =~= seq![0x53u8, 0x8D, 0x41, 0x00, 0x33, 0xDB]);
    assert(masks@ =~= seq![0xFFu8, 0xFF, 0xFF, 0x00, 0xFF, 0xFF]);
    match Signature::new(values.as_slice(), masks.as_slice()) {
        Some(signature) => signature,
        None => Signature { positions: Vec::new() },
    }
}

fn signature_32_3() -> (signature: Signature)
    ensures
        signature@ == sig_32_3(),
{
    let values: [u8; 14] = [
        0x55,
        0x8B,
        0xEC,
        0x83,
        0xEC,
        0x18,
        0xA1,
        0x00,
        0x00,
        0x00,
        0x00,
        0x33,
        0xC9,
        0x53,
    ];
    let masks: [u8; 14] = [
        0xFF,
        0xFF,
        0xFF,
        0xFF,
        0xFF,
        0xFF,
        0xFF,
        0x00,
        0x00,
        0x00,
        0x00,
        0xFF,
        0xFF,
        0xFF,
    ];
    assert(values@ =~= seq![
        0x55u8,
        0x8B,
        0xEC,
        0x83,
        0xEC,
        0x18,
        0xA1,
        0x00,
        0x00,
        0x00,
        0x00,
        0x33,
        0xC9,
        0x53,
    ]);
    assert(masks@ =~= seq![
        0xFFu8,
        0xFF,
        0xFF,
        0xFF,
        0xFF,
        0xFF,
        0xFF,
        0x00,
        0x00,
        0x00,
        0x00,
        0xFF,
        0xFF,
        0xFF,
    ]);
    match Signature::new(values.as_slice(), masks.as_slice()) {
        Some(signature) => signature,
        None => Signature { positions: Vec::new() },
    }
}

/// Finds, in a 64-bit module, the place that holds the scene manager's
/// address.
fn locate_64(module: &ModuleImage) -> (location: Option<u64>)
    ensures
        location == pointer_location_64(module.spec_base(), module.spec_bytes()),
{
    let patterns: [Signature; 1] = [signature_64_bit()];
    match module.scan(patterns.as_slice()) {
        None => None,
        Some(located) => {
            let at: usize = located.offset;
            proof {
                assert(patterns@[0]@ == sig_64_bit());
                assert(sig_64_bit().len() == 13);
                lemma_first_match(sig_64_bit(), module.spec_bytes(), at as int);
            }
            let bytes = module.bytes();
            assert(at + 13 <= bytes.len());
            match i32_at(bytes, at + 7) {
                None => None,
                Some(displacement) => {
                    let target: i128 = located.address as i128 + 11 + displacement as i128;
                    if target < 0 || target > u64::MAX as i128 {
                        None
                    } else {
                        Some(target as u64)
                    }
                },
            }
        },
    }
}

/// Finds, in a 32-bit module, the place that holds the scene manager's
/// address.
fn locate_32(module: &ModuleImage) -> (location: Option<u64>)
    ensures
        location == pointer_location_32(module.spec_bytes()),
{
    let patterns: [Signature; 3] = [signature_32_1(), signature_32_2(), signature_32_3()];
    match module.scan(patterns.as_slice()) {
        None => {
            proof {
                assert(patterns@[0]@ == sig_32_1());
                assert(patterns@[1]@ == sig_32_2());
                assert(patterns@[2]@ == sig_32_3());
            }
            None
        },
        Some(located) => {
            let at: usize = located.offset;
            proof {
                assert(sig_32_1().len() == 12);
                assert(sig_32_2().len() == 6);
                assert(sig_32_3().len() == 14);
                assert(patterns@[0]@ == sig_32_1());
                assert(patterns@[1]@ == sig_32_2());
                assert(patterns@[2]@ == sig_32_3());
                lemma_first_match(
                    patterns@[located.pattern as int]@,
                    module.spec_bytes(),
                    at as int,
                );
            }
            let bytes = module.bytes();
            assert(at + 6 <= bytes.len());
            let field: Option<u32> = if located.pattern == 0 {
                u32_at(bytes, at + 5)
            } else if located.pattern == 1 {
                if at >= 4 {
                    u32_at(bytes, at - 4)
                } else {
                    None
                }
            } else {
                assert(at + 14 <= bytes.len());
                u32_at(bytes, at + 7)
            };
            match field {
                Some(address) => Some(address as u64),
                None => None,
            }
        },
    }
}

impl SceneManager {
    /// What `attach` makes of a module and of what is known of memory.
    pub open spec fn spec_attach(module: ModuleImage, image: MemoryImage) -> Fetch<
        Option<SceneManager>,
    > {
        match machine_marker(module.spec_bytes()) {
            None => Fetch::Ready(None),
            Some(marker) => {
                let pointer_size = pointer_size_of(marker);
                match pointer_location(module.spec_base(), module.spec_bytes(), pointer_size) {
                    None => Fetch::Ready(None),
                    Some(location) => match image.spec_follow(location, 0, pointer_size) {
                        Fetch::Need(request) => Fetch::Need(request),
                        Fetch::Ready(None) => Fetch::Ready(None),
                        Fetch::Ready(Some(address)) => Fetch::Ready(
                            Some(
                                SceneManager {
                                    pointer_size,
                                    address,
                                    offsets: Offsets::spec_new(pointer_size),
                                },
                            ),
                        ),
                    },
                }
            },
        }
    }

    /// Locates the scene manager. `module` is the player module of the
    /// process. Its header decides the pointer width and with it the
    /// patterns to search for; the match gives the place where the scene
    /// manager's address is kept, and the address is read from there once.
    /// There is no scene manager if the header cannot be read, no pattern
    /// occurs, or the place is unreadable or holds a null pointer.
    pub fn attach(module: &ModuleImage, image: &MemoryImage) -> (found: Fetch<
        Option<SceneManager>,
    >)
        ensures
            found == Self::spec_attach(*module, *image),
            found matches Fetch::Ready(Some(manager)) ==> manager.address != 0,
            found matches Fetch::Need(request) ==> !image.knows(request),
    {
        let pointer_size = match module.pointer_size() {
            None => {
                return Fetch::Ready(None);
            },
            Some(pointer_size) => pointer_size,
        };
        let location = match pointer_size {
            PointerSize::Bit64 => locate_64(module),
            PointerSize::Bit32 => locate_32(module),
        };
        match location {
            None => Fetch::Ready(None),
            Some(location) => match image.follow(location, 0, pointer_size) {
                Fetch::Need(request) => Fetch::Need(request),
                Fetch::Ready(None) => Fetch::Ready(None),
                Fetch::Ready(Some(address)) => Fetch::Ready(
                    Some(SceneManager { pointer_size, address, offsets: Offsets::new(pointer_size) }),
                ),
            },
        }
    }

    /// The scene that is active, as far as `image` can tell.
    pub open spec fn spec_current_scene(self, image: MemoryImage) -> Fetch<Option<Scene>> {
        match image.spec_follow(self.address, self.offsets.active_scene as u64, self.pointer_size) {
            Fetch::Need(request) => Fetch::Need(request),
            Fetch::Ready(None) => Fetch::Ready(None),
            Fetch::Ready(Some(address)) => Fetch::Ready(Some(Scene { address })),
        }
    }

    /// Reads which scene is active. There is none while the scene manager
    /// holds a null pointer, which happens between scenes.
    pub fn get_current_scene(&self, image: &MemoryImage) -> (scene: Fetch<Option<Scene>>)
        ensures
            scene == self.spec_current_scene(*image),
            scene matches Fetch::Need(request) ==> !image.knows(request),
    {
        match image.follow(self.address, self.offsets.active_scene as u64, self.pointer_size) {
            Fetch::Need(request) => Fetch::Need(request),
            Fetch::Ready(None) => Fetch::Ready(None),
            Fetch::Ready(Some(address)) => Fetch::Ready(Some(Scene { address })),
        }
    }

    /// The asset path of the active scene, as far as `image` can tell.
    pub open spec fn spec_current_scene_path(self, image: MemoryImage, max_len: usize) -> Fetch<
        Option<Seq<u8>>,
    > {
        match self.spec_current_scene(image) {
            Fetch::Need(request) => Fetch::Need(request),
            Fetch::Ready(None) => Fetch::Ready(None),
            Fetch::Ready(Some(scene)) => scene.spec_path(image, self, max_len),
        }
    }

    /// Reads the asset path of the active scene, cut off after `max_len`
    /// bytes. `get_scene_name` turns it into the scene's name.
    pub fn get_current_scene_path(&self, image: &MemoryImage, max_len: usize) -> (path: Fetch<
        Option<Vec<u8>>,
    >)
        ensures
            fetched_bytes(path) == self.spec_current_scene_path(*image, max_len),
            path matches Fetch::Need(request) ==> !image.knows(request),
    {
        match self.get_current_scene(image) {
            Fetch::Need(request) => Fetch::Need(request),
            Fetch::Ready(None) => Fetch::Ready(None),
            Fetch::Ready(Some(scene)) => scene.path(image, self, max_len),
        }
    }
}

impl Scene {
    /// The scene's asset path, as far as `image` can tell: the scene holds a
    /// pointer to the text, which ends at its first zero byte or after
    /// `max_len` bytes.
    pub open spec fn spec_path(
        self,
        image: MemoryImage,
        scene_manager: SceneManager,
        max_len: usize,
    ) -> Fetch<Option<Seq<u8>>> {
        match image.spec_follow(
            self.address,
            scene_manager.offsets.asset_path as u64,
            scene_manager.pointer_size,
        ) {
            Fetch::Need(request) => Fetch::Need(request),
            Fetch::Ready(None) => Fetch::Ready(None),
            Fetch::Ready(Some(text)) => match image.spec_read(text, max_len) {
                Fetch::Need(request) => Fetch::Need(request),
                Fetch::Ready(None) => Fetch::Ready(None),
                Fetch::Ready(Some(buffer)) => Fetch::Ready(Some(c_string(buffer))),
            },
        }
    }

    /// Reads the scene's asset path, cut off after `max_len` bytes.
    pub fn path(&self, image: &MemoryImage, scene_manager: &SceneManager, max_len: usize) -> (path:
        Fetch<Option<Vec<u8>>>)
        ensures
            fetched_bytes(path) == self.spec_path(*image, *scene_manager, max_len),
            path matches Fetch::Need(request) ==> !image.knows(request),
    {
        match image.follow(
            self.address,
            scene_manager.offsets.asset_path as u64,
            scene_manager.pointer_size,
        ) {
            Fetch::Need(request) => Fetch::Need(request),
            Fetch::Ready(None) => Fetch::Ready(None),
            Fetch::Ready(Some(text)) => match image.read(text, max_len) {
                Fetch::Need(request) => Fetch::Need(request),
                Fetch::Ready(None) => Fetch::Ready(None),
                Fetch::Ready(Some(buffer)) => Fetch::Ready(Some(c_string_of(buffer.as_slice()))),
            },
        }
    }
}

/// The byte that separates the components of an asset path.
pub const PATH_SEPARATOR: u8 = 0x2F;

/// The byte that starts a file name's extension.
pub const EXTENSION_MARK: u8 = 0x2E;

/// The offset at which the last component of `path` starts: just past its
/// last separator, or at the start if it holds none.
pub open spec fn name_start(path: Seq<u8>) -> int
    decreases path.len(),
{
    if path.len() == 0 {
        0
    } else if path.last() == PATH_SEPARATOR {
        path.len() as int
    } else {
        name_start(path.drop_last())
    }
}

/// The name of the scene stored at `path`: the last component of the path,
/// up to its first extension mark.
pub open spec fn scene_name(path: Seq<u8>) -> Seq<u8> {
    prefix_before(path.skip(name_start(path)), EXTENSION_MARK)
}

/// `name_start` is the one offset that has no separator after it and either
/// is the start of the path or has a separator just before it.
pub proof fn lemma_name_start(path: Seq<u8>, start: int)
    requires
        0 <= start <= path.len(),
        start == 0 || path[start - 1] == PATH_SEPARATOR,
        forall|i: int| start <= i < path.len() ==> path[i] != PATH_SEPARATOR,
    ensures
        name_start(path) == start,
    decreases path.len(),
{
    if path.len() > 0 && path.last() != PATH_SEPARATOR {
        lemma_name_start(path.drop_last(), start);
    }
}

/// The name of a scene never holds a separator or an extension mark, and the
/// path holds it in one piece.
pub proof fn lemma_scene_name_is_clean(path: Seq<u8>)
    ensures
        0 <= name_start(path) <= path.len(),
        scene_name(path).len() <= path.len() - name_start(path),
        scene_name(path) == path.subrange(
            name_start(path),
            name_start(path) + scene_name(path).len(),
        ),
        forall|i: int|
            0 <= i < scene_name(path).len() ==> scene_name(path)[i] != PATH_SEPARATOR
                && scene_name(path)[i] != EXTENSION_MARK,
{
    lemma_name_start_bounds(path);
    let tail = path.skip(name_start(path));
    lemma_prefix_before(tail, EXTENSION_MARK);
    assert(tail.take(scene_name(path).len() as int) =~= path.subrange(
        name_start(path),
        name_start(path) + scene_name(path).len(),
    ));
}

proof fn lemma_name_start_bounds(path: Seq<u8>)
    ensures
        0 <= name_start(path) <= path.len(),
        forall|i: int| name_start(path) <= i < path.len() ==> path[i] != PATH_SEPARATOR,
    decreases path.len(),
{
    if path.len() > 0 && path.last() != PATH_SEPARATOR {
        let init = path.drop_last();
        lemma_name_start_bounds(init);
        assert forall|i: int| name_start(path) <= i < path.len() implies path[i]
            != PATH_SEPARATOR by {
            if i < init.len() {
                assert(init[i] == path[i]);
            }
        }
    }
}

/// Cuts the name of a scene out of its asset path.
pub fn get_scene_name(scene_path: &[u8]) -> (name: &[u8])
    ensures
        name@ == scene_name(scene_path@),
{
    let mut start: usize = scene_path.len();
    while start > 0 && scene_path[start - 1] != PATH_SEPARATOR
        invariant
            start <= scene_path@.len(),
            forall|i: int| start <= i < scene_path@.len() ==> scene_path@[i] != PATH_SEPARATOR,
        decreases start,
    {
        start -= 1;
    }
    proof {
        lemma_name_start(scene_path@, start as int);
    }
    let tail = slice_subrange(scene_path, start, scene_path.len());
    assert(tail@ =~= scene_path@.skip(start as int));
    let n = prefix_len_before(tail, EXTENSION_MARK);
    slice_subrange(tail, 0, n)
}

} // verus!
