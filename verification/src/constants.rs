//! The fixed parts of every exclusion rule set.

use vstd::prelude::*;

verus! {

/// Patterns that are excluded whatever the user configures: licence files,
/// the ignore file and the metadata directory of the version control system,
/// and the dependency directory.
pub open spec fn default_exclusions() -> Seq<Seq<char>> {
    seq!["*LICENSE*"@, ".gitignore"@, "node_modules/"@, ".git/"@]
}

/// Extensions of files that hold no text worth aggregating: fonts, images,
/// video, audio, archives, executables and lock files.
pub open spec fn unsupported_extensions() -> Seq<Seq<char>> {
    seq![
        "eot"@, "tiff"@, "tff"@, "woff"@, "woff2"@, "otf"@,
        "jpg"@, "png"@, "gif"@, "jfif"@, "webp"@, "bmp"@, "ico"@, "svg"@,
        "mp4"@, "mov"@, "avi"@, "flv"@,
        "mp3"@, "wmv"@, "wav"@, "aac"@, "flac"@, "ogg"@, "wma"@, "zip"@,
        "pyc"@, "pyd"@, "tar"@, "gz"@, "rar"@, "7z"@, "iso"@, "bin"@, "exe"@, "dll"@, "msi"@,
        "dmg"@, "pkg"@, "deb"@, "rpm"@, "apk"@, "jar"@, "war"@, "ear"@, "npz"@, "npy"@, "lib"@,
        "dat"@,
        "mo"@, "pdf"@,
        "lock"@,
    ]
}

/// The default exclusion patterns, in order.
pub fn default_exclusion_list() -> (list: Vec<&'static str>)
    ensures
        list.deep_view() == default_exclusions(),
{
    let list: Vec<&'static str> = vec!["*LICENSE*", ".gitignore", "node_modules/", ".git/"];
    assert(list.deep_view() =~= default_exclusions());
    list
}

/// The unsupported extensions, in order.
pub fn unsupported_extension_list() -> (list: Vec<&'static str>)
    ensures
        list.deep_view() == unsupported_extensions(),
{
    let list: Vec<&'static str> = vec![
        "eot", "tiff", "tff", "woff", "woff2", "otf",
        "jpg", "png", "gif", "jfif", "webp", "bmp", "ico", "svg",
        "mp4", "mov", "avi", "flv",
        "mp3", "wmv", "wav", "aac", "flac", "ogg", "wma", "zip",
        "pyc", "pyd", "tar", "gz", "rar", "7z", "iso", "bin", "exe", "dll", "msi",
        "dmg", "pkg", "deb", "rpm", "apk", "jar", "war", "ear", "npz", "npy", "lib",
        "dat",
        "mo", "pdf",
        "lock",
    ];
    assert(list.deep_view() =~= unsupported_extensions());
    list
}

} // verus!
