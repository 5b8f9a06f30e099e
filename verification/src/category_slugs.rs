//! The category slugs that crates.io accepts.

use vstd::prelude::*;

use crate::text::str_eq;

verus! {

/// The most categories crates.io accepts on one package.
pub const MAX_CRATES_IO_CATEGORIES: usize = 5;

/// The category slugs that crates.io accepts.
pub open spec fn valid_slugs() -> Seq<Seq<char>> {
    seq![
        "accessibility"@, "aerospace"@, "aerospace::drones"@, "aerospace::protocols"@,
        "aerospace::simulation"@, "aerospace::space-protocols"@,
        "aerospace::unmanned-aerial-vehicles"@, "algorithms"@, "api-bindings"@, "asynchronous"@,
        "authentication"@, "caching"@, "command-line-interface"@, "command-line-utilities"@,
        "compilers"@, "compression"@, "computer-vision"@, "concurrency"@, "config"@,
        "cryptography"@, "cryptography::cryptocurrencies"@, "data-structures"@, "database"@,
        "database-implementations"@, "date-and-time"@, "development-tools"@,
        "development-tools::build-utils"@, "development-tools::cargo-plugins"@,
        "development-tools::debugging"@, "development-tools::ffi"@,
        "development-tools::procedural-macro-helpers"@, "development-tools::profiling"@,
        "development-tools::testing"@, "email"@, "embedded"@, "emulators"@, "encoding"@,
        "external-ffi-bindings"@, "filesystem"@, "finance"@, "game-development"@,
        "game-engines"@, "games"@, "graphics"@, "gui"@, "hardware-support"@,
        "internationalization"@, "localization"@, "mathematics"@, "memory-management"@,
        "multimedia"@, "multimedia::audio"@, "multimedia::encoding"@, "multimedia::images"@,
        "multimedia::video"@, "network-programming"@, "no-std"@, "no-std::no-alloc"@, "os"@,
        "os::android-apis"@, "os::freebsd-apis"@, "os::linux-apis"@, "os::macos-apis"@,
        "os::unix-apis"@, "os::windows-apis"@, "parser-implementations"@, "parsing"@,
        "rendering"@, "rendering::data-formats"@, "rendering::engine"@,
        "rendering::graphics-api"@, "rust-patterns"@, "science"@, "science::bioinformatics"@,
        "science::geo"@, "science::neuroscience"@, "science::robotics"@, "simulation"@,
        "template-engine"@, "text-editors"@, "text-processing"@, "value-formatting"@,
        "virtualization"@, "visualization"@, "wasm"@, "web-programming"@,
        "web-programming::http-client"@, "web-programming::http-server"@,
        "web-programming::websocket"@,
    ]
}

/// The accepted slugs, in the order of `valid_slugs`.
fn slug_list() -> (slugs: Vec<&'static str>)
    ensures
        slugs@.map_values(|s: &str| s@) == valid_slugs(),
{
    let slugs = vec![
        "accessibility", "aerospace", "aerospace::drones", "aerospace::protocols",
        "aerospace::simulation", "aerospace::space-protocols",
        "aerospace::unmanned-aerial-vehicles", "algorithms", "api-bindings", "asynchronous",
        "authentication", "caching", "command-line-interface", "command-line-utilities",
        "compilers", "compression", "computer-vision", "concurrency", "config",
        "cryptography", "cryptography::cryptocurrencies", "data-structures", "database",
        "database-implementations", "date-and-time", "development-tools",
        "development-tools::build-utils", "development-tools::cargo-plugins",
        "development-tools::debugging", "development-tools::ffi",
        "development-tools::procedural-macro-helpers", "development-tools::profiling",
        "development-tools::testing", "email", "embedded", "emulators", "encoding",
        "external-ffi-bindings", "filesystem", "finance", "game-development",
        "game-engines", "games", "graphics", "gui", "hardware-support",
        "internationalization", "localization", "mathematics", "memory-management",
        "multimedia", "multimedia::audio", "multimedia::encoding", "multimedia::images",
        "multimedia::video", "network-programming", "no-std", "no-std::no-alloc", "os",
        "os::android-apis", "os::freebsd-apis", "os::linux-apis", "os::macos-apis",
        "os::unix-apis", "os::windows-apis", "parser-implementations", "parsing",
        "rendering", "rendering::data-formats", "rendering::engine",
        "rendering::graphics-api", "rust-patterns", "science", "science::bioinformatics",
        "science::geo", "science::neuroscience", "science::robotics", "simulation",
        "template-engine", "text-editors", "text-processing", "value-formatting",
        "virtualization", "visualization", "wasm", "web-programming",
        "web-programming::http-client", "web-programming::http-server",
        "web-programming::websocket",
    ];
    assert(slugs@.map_values(|s: &str| s@) =~= valid_slugs());
    slugs
}

/// Whether crates.io accepts `slug` as a category.
pub fn is_valid_category_slug(slug: &str) -> (valid: bool)
    ensures
        valid == valid_slugs().contains(slug@),
{
    let slugs = slug_list();
    let ghost all = valid_slugs();
    let mut i: usize = 0;
    while i < slugs.len()
        invariant
            slugs@.map_values(|s: &str| s@) == all,
            all == valid_slugs(),
            i <= slugs.len(),
            forall|k: int| 0 <= k < i ==> #[trigger] all[k] != slug@,
        decreases slugs.len() - i,
    {
        assert(all[i as int] == slugs@[i as int]@);
        if str_eq(slugs[i], slug) {
            assert(all[i as int] == slug@);
            return true;
        }
        i = i + 1;
    }
    assert(!all.contains(slug@)) by {
        if all.contains(slug@) {
            let k = choose|k: int| 0 <= k < all.len() && all[k] == slug@;
            assert(all[k] != slug@);
        }
    }
    false
}

} // verus!
