//! Where each package of a distribution is unpacked.

use super::text::same_text;
use vstd::prelude::*;
use vstd::string::*;

verus! {

/// The routing table: a package's file name and the place of its contents
/// below the distribution root. The empty place is the root itself.
pub open spec fn roblox_dirs() -> Seq<(Seq<char>, Seq<char>)> {
    seq![
        ("RobloxApp.zip"@, ""@),
        ("shaders.zip"@, "shaders/"@),
        ("ssl.zip"@, "ssl/"@),
        ("Libraries.zip"@, ""@),
        ("WebView2.zip"@, ""@),
        ("content-translations.zip"@, "translations/"@),
        ("content-luapackages.zip"@, "content/luapackages"@),
        ("WebView2RuntimeInstaller.zip"@, "WebView2RuntimeInstaller"@),
        ("NPRobloxProxy.zip"@, ""@),
        ("content-avatar.zip"@, "content/avatar"@),
        ("content-configs.zip"@, "content/configs"@),
        ("content-fonts.zip"@, "content/fonts"@),
        ("content-sky.zip"@, "content/sky"@),
        ("content-sounds.zip"@, "content/sounds"@),
        ("content-textures2.zip"@, "content/textures"@),
        ("content-models.zip"@, "content/models"@),
        ("content-textures3.zip"@, "PlatformContent/pc/textures"@),
        ("content-terrain.zip"@, "PlatformContent/pc/terrain"@),
        ("content-platform-fonts.zip"@, "PlatformContent/pc/fonts"@),
        ("extracontent-luapackages.zip"@, "ExtraContent/LuaPackages"@),
        ("extracontent-translations.zip"@, "ExtraContent/translations"@),
        ("extracontent-models.zip"@, "ExtraContent/models"@),
        ("extracontent-textures.zip"@, "ExtraContent/textures"@),
        ("extracontent-places.zip"@, "ExtraContent/places"@),
        ("extracontent-scripts.zip"@, "ExtraContent/scripts"@),
    ]
}

/// The number of rows of the routing table.
pub const ROBLOX_DIRS_LEN: usize = 25;

/// Row `i` of the routing table.
pub fn roblox_dir(i: usize) -> (row: (&'static str, &'static str))
    requires
        i < ROBLOX_DIRS_LEN,
    ensures
        row.0@ == roblox_dirs()[i as int].0,
        row.1@ == roblox_dirs()[i as int].1,
{
    match i {
        0 => ("RobloxApp.zip", ""),
        1 => ("shaders.zip", "shaders/"),
        2 => ("ssl.zip", "ssl/"),
        3 => ("Libraries.zip", ""),
        4 => ("WebView2.zip", ""),
        5 => ("content-translations.zip", "translations/"),
        6 => ("content-luapackages.zip", "content/luapackages"),
        7 => ("WebView2RuntimeInstaller.zip", "WebView2RuntimeInstaller"),
        8 => ("NPRobloxProxy.zip", ""),
        9 => ("content-avatar.zip", "content/avatar"),
        10 => ("content-configs.zip", "content/configs"),
        11 => ("content-fonts.zip", "content/fonts"),
        12 => ("content-sky.zip", "content/sky"),
        13 => ("content-sounds.zip", "content/sounds"),
        14 => ("content-textures2.zip", "content/textures"),
        15 => ("content-models.zip", "content/models"),
        16 => ("content-textures3.zip", "PlatformContent/pc/textures"),
        17 => ("content-terrain.zip", "PlatformContent/pc/terrain"),
        18 => ("content-platform-fonts.zip", "PlatformContent/pc/fonts"),
        19 => ("extracontent-luapackages.zip", "ExtraContent/LuaPackages"),
        20 => ("extracontent-translations.zip", "ExtraContent/translations"),
        21 => ("extracontent-models.zip", "ExtraContent/models"),
        22 => ("extracontent-textures.zip", "ExtraContent/textures"),
        23 => ("extracontent-places.zip", "ExtraContent/places"),
        _ => ("extracontent-scripts.zip", "ExtraContent/scripts"),
    }
}

/// Row `i` is the first row of the routing table that names `file`.
pub open spec fn routed_by(file: Seq<char>, i: int) -> bool {
    &&& 0 <= i < roblox_dirs().len()
    &&& roblox_dirs()[i].0 == file
    &&& forall|j: int| 0 <= j < i ==> roblox_dirs()[j].0 != file
}

/// The place below the distribution root to which a file name is routed: that
/// of the first row that names exactly this file, and the root for a name that
/// no row holds.
pub open spec fn destination(file: Seq<char>) -> Seq<char> {
    if exists|i: int| routed_by(file, i) {
        roblox_dirs()[choose|i: int| routed_by(file, i)].1
    } else {
        Seq::empty()
    }
}

/// The path of a place, relative to the staging directory.
pub open spec fn relative(place: Seq<char>) -> Seq<char> {
    "./"@ + place
}

/// A file name that the first matching row of the table names is routed to
/// that row's place.
pub proof fn lemma_known_file_is_routed_by_its_row(file: Seq<char>, i: int)
    requires
        routed_by(file, i),
    ensures
        destination(file) == roblox_dirs()[i].1,
{
    let k = choose|k: int| routed_by(file, k);
    assert(routed_by(file, k));
    assert(k == i) by {
        if k < i {
            assert(roblox_dirs()[k].0 != file);
        }
        if i < k {
            assert(roblox_dirs()[i].0 != file);
        }
    }
}

/// A file name that no row of the table holds is routed to the root.
pub proof fn lemma_unknown_file_is_routed_to_root(file: Seq<char>)
    requires
        forall|i: int| 0 <= i < roblox_dirs().len() ==> roblox_dirs()[i].0 != file,
    ensures
        destination(file) == Seq::<char>::empty(),
        relative(destination(file)) == "./"@,
{
    assert("./"@ + Seq::<char>::empty() =~= "./"@);
}

/// The directory, relative to the staging directory, into which the package
/// of the given file name is unpacked.
pub fn get_file_dir(file: &str) -> (dir: String)
    ensures
        dir@ == relative(destination(file@)),
{
    assert(roblox_dirs().len() == ROBLOX_DIRS_LEN);
    let mut i: usize = 0;
    while i < ROBLOX_DIRS_LEN
        invariant
            i <= ROBLOX_DIRS_LEN,
            roblox_dirs().len() == ROBLOX_DIRS_LEN,
            forall|j: int| 0 <= j < i ==> roblox_dirs()[j].0 != file@,
        decreases ROBLOX_DIRS_LEN - i,
    {
        let row = roblox_dir(i);
        if same_text(file, row.0) {
            proof {
                assert(routed_by(file@, i as int));
                lemma_known_file_is_routed_by_its_row(file@, i as int);
            }
            return String::from_str("./").concat(row.1);
        }
        i += 1;
    }
    proof {
        lemma_unknown_file_is_routed_to_root(file@);
    }
    String::from_str("./")
}

/// Tells whether a row of the routing table names the file. A file that
/// none names is unpacked at the root, which is worth a warning: it may be
/// of a kind that the table does not know yet.
pub fn has_route(file: &str) -> (r: bool)
    ensures
        r == (exists|i: int| routed_by(file@, i)),
{
    assert(roblox_dirs().len() == ROBLOX_DIRS_LEN);
    let mut i: usize = 0;
    while i < ROBLOX_DIRS_LEN
        invariant
            i <= ROBLOX_DIRS_LEN,
            roblox_dirs().len() == ROBLOX_DIRS_LEN,
            forall|j: int| 0 <= j < i ==> roblox_dirs()[j].0 != file@,
        decreases ROBLOX_DIRS_LEN - i,
    {
        if same_text(file, roblox_dir(i).0) {
            assert(routed_by(file@, i as int));
            return true;
        }
        i += 1;
    }
    false
}

} // verus!
