//! The third-party libraries credited on the open source licenses page, with
//! the license text of each.

use vstd::prelude::*;
use crate::text::{chars_of, join_with, push_joined, string_of, trim_end};

verus! {

/// A credited library.
#[derive(Clone, Debug)]
pub struct ThirdPartyLib {
    pub name: String,
    pub repository: String,
    pub license: String,
    pub license_text: String,
}

impl ThirdPartyLib {
    pub fn new(name: &str, repository: &str, license: &str, license_text: String) -> (r: Self)
        ensures
            r.name@ == name@,
            r.repository@ == repository@,
            r.license@ == license@,
            r.license_text == license_text,
    {
        ThirdPartyLib {
            name: name.to_owned(),
            repository: repository.to_owned(),
            license: license.to_owned(),
            license_text,
        }
    }
}

/// Several license texts in one: each without its trailing whitespace, with
/// a blank line between them.
pub open spec fn merged_license(parts: Seq<Seq<char>>) -> Seq<char> {
    join_with(parts.map_values(|p: Seq<char>| trim_end(p)), "\n\n"@)
}

pub fn merge_license(parts: &[&str]) -> (r: String)
    ensures
        r@ == merged_license(parts@.map_values(|p: &str| p@)),
{
    let ghost all = parts@.map_values(|p: &str| p@).map_values(|p: Seq<char>| trim_end(p));
    let sep = chars_of("\n\n");
    let mut out: Vec<char> = Vec::new();
    let mut i: usize = 0;
    while i < parts.len()
        invariant
            0 <= i <= parts@.len(),
            all == parts@.map_values(|p: &str| p@).map_values(|p: Seq<char>| trim_end(p)),
            sep@ == "\n\n"@,
            out@ == join_with(all.subrange(0, i as int), "\n\n"@),
        decreases parts@.len() - i,
    {
        let v = chars_of(parts[i]);
        let piece = crate::text::trim_end_chars(v.as_slice());
        let ghost done = all.subrange(0, i as int);
        push_joined(&mut out, piece.as_slice(), sep.as_slice(), i == 0, Ghost(done));
        assert(done.push(piece@) =~= all.subrange(0, i + 1));
        i = i + 1;
    }
    assert(all.subrange(0, all.len() as int) =~= all);
    string_of(out.as_slice())
}

fn merge2(a: &str, b: &str) -> (r: String)
    ensures
        r@ == merged_license(seq![a@, b@]),
{
    let parts: [&str; 2] = [a, b];
    let r = merge_license(&parts);
    assert(parts@.map_values(|p: &str| p@) =~= seq![a@, b@]);
    r
}

fn merge3(a: &str, b: &str, c: &str) -> (r: String)
    ensures
        r@ == merged_license(seq![a@, b@, c@]),
{
    let parts: [&str; 3] = [a, b, c];
    let r = merge_license(&parts);
    assert(parts@.map_values(|p: &str| p@) =~= seq![a@, b@, c@]);
    r
}

/// How many license files the catalog draws on.
pub const LICENSE_FILE_COUNT: usize = 46;

/// The names of the license files, in the order their texts are handed to
/// `get_third_party_libs`.
pub open spec fn license_files() -> Seq<Seq<char>> {
    seq![
        "gpui-LICENSE-APACHE.txt"@,
        "gpui-component-LICENSE-APACHE.txt"@,
        "gpui-router-LICENSE-MIT.txt"@,
        "openharmony-ability-LICENSE.txt"@,
        "localsend-LICENSE.txt"@,
        "napi-ohos-LICENSE-MIT.txt"@,
        "napi-derive-ohos-LICENSE-MIT.txt"@,
        "napi-derive-backend-ohos-LICENSE-MIT.txt"@,
        "ohos-hilog-binding-LICENSE-APACHE.txt"@,
        "ohos-hilog-binding-LICENSE-MIT.txt"@,
        "log-LICENSE-APACHE.txt"@,
        "log-LICENSE-MIT.txt"@,
        "tokio-LICENSE.txt"@,
        "serde-LICENSE-APACHE.txt"@,
        "serde-LICENSE-MIT.txt"@,
        "serde_json-LICENSE-APACHE.txt"@,
        "serde_json-LICENSE-MIT.txt"@,
        "anyhow-LICENSE-APACHE.txt"@,
        "anyhow-LICENSE-MIT.txt"@,
        "uuid-LICENSE-APACHE.txt"@,
        "uuid-LICENSE-MIT.txt"@,
        "rcgen-LICENSE.txt"@,
        "reqwest-LICENSE-APACHE.txt"@,
        "reqwest-LICENSE-MIT.txt"@,
        "futures-util-LICENSE-APACHE.txt"@,
        "futures-util-LICENSE-MIT.txt"@,
        "chrono-LICENSE.txt"@,
        "hyper-LICENSE.txt"@,
        "hyper-util-LICENSE.txt"@,
        "http-body-util-LICENSE.txt"@,
        "bytes-LICENSE.txt"@,
        "base64-LICENSE-APACHE.txt"@,
        "base64-LICENSE-MIT.txt"@,
        "tokio-rustls-LICENSE-APACHE.txt"@,
        "tokio-rustls-LICENSE-MIT.txt"@,
        "rustls-LICENSE-APACHE.txt"@,
        "rustls-LICENSE-ISC.txt"@,
        "rustls-LICENSE-MIT.txt"@,
        "if-addrs-LICENSE-BSD.txt"@,
        "if-addrs-LICENSE-MIT.txt"@,
        "socket2-LICENSE-APACHE.txt"@,
        "socket2-LICENSE-MIT.txt"@,
        "qrcode-LICENSE-APACHE.txt"@,
        "qrcode-LICENSE-MIT.txt"@,
        "urlencoding-LICENSE.txt"@,
        "rust-embed-LICENSE.txt"@,
    ]
}

/// The license files, in the order their texts are handed to
/// `get_third_party_libs`.
pub fn license_file_names() -> (r: Vec<&'static str>)
    ensures
        r@.len() == LICENSE_FILE_COUNT,
        r@.map_values(|s: &str| s@) == license_files(),
{
    let names: Vec<&'static str> = vec![
        "gpui-LICENSE-APACHE.txt",
        "gpui-component-LICENSE-APACHE.txt",
        "gpui-router-LICENSE-MIT.txt",
        "openharmony-ability-LICENSE.txt",
        "localsend-LICENSE.txt",
        "napi-ohos-LICENSE-MIT.txt",
        "napi-derive-ohos-LICENSE-MIT.txt",
        "napi-derive-backend-ohos-LICENSE-MIT.txt",
        "ohos-hilog-binding-LICENSE-APACHE.txt",
        "ohos-hilog-binding-LICENSE-MIT.txt",
        "log-LICENSE-APACHE.txt",
        "log-LICENSE-MIT.txt",
        "tokio-LICENSE.txt",
        "serde-LICENSE-APACHE.txt",
        "serde-LICENSE-MIT.txt",
        "serde_json-LICENSE-APACHE.txt",
        "serde_json-LICENSE-MIT.txt",
        "anyhow-LICENSE-APACHE.txt",
        "anyhow-LICENSE-MIT.txt",
        "uuid-LICENSE-APACHE.txt",
        "uuid-LICENSE-MIT.txt",
        "rcgen-LICENSE.txt",
        "reqwest-LICENSE-APACHE.txt",
        "reqwest-LICENSE-MIT.txt",
        "futures-util-LICENSE-APACHE.txt",
        "futures-util-LICENSE-MIT.txt",
        "chrono-LICENSE.txt",
        "hyper-LICENSE.txt",
        "hyper-util-LICENSE.txt",
        "http-body-util-LICENSE.txt",
        "bytes-LICENSE.txt",
        "base64-LICENSE-APACHE.txt",
        "base64-LICENSE-MIT.txt",
        "tokio-rustls-LICENSE-APACHE.txt",
        "tokio-rustls-LICENSE-MIT.txt",
        "rustls-LICENSE-APACHE.txt",
        "rustls-LICENSE-ISC.txt",
        "rustls-LICENSE-MIT.txt",
        "if-addrs-LICENSE-BSD.txt",
        "if-addrs-LICENSE-MIT.txt",
        "socket2-LICENSE-APACHE.txt",
        "socket2-LICENSE-MIT.txt",
        "qrcode-LICENSE-APACHE.txt",
        "qrcode-LICENSE-MIT.txt",
        "urlencoding-LICENSE.txt",
        "rust-embed-LICENSE.txt",
    ];
    assert(names@.map_values(|s: &str| s@) =~= license_files());
    names
}

/// The catalog: name, repository, license and license text of each library,
/// given the texts of the license files.
pub open spec fn catalog(t: Seq<Seq<char>>) -> Seq<(Seq<char>, Seq<char>, Seq<char>, Seq<char>)> {
    seq![
        ("gpui"@, "https://github.com/zed-industries/zed.git"@, "Apache-2.0"@, t[0]),
        ("gpui_platform"@, "https://github.com/zed-industries/zed.git"@, "Apache-2.0"@, t[0]),
        ("gpui-component"@, "https://github.com/longbridge/gpui-component.git"@, "Apache-2.0"@, t[1]),
        ("gpui-router"@, "https://github.com/justjavac/gpui-router"@, "MIT"@, t[2]),
        ("gpui-component-assets"@, "https://github.com/longbridge/gpui-component.git"@, "Apache-2.0"@, t[1]),
        ("openharmony-ability"@, "https://github.com/harmony-contrib/openharmony-ability.git"@, "MIT OR Apache-2.0"@, t[3]),
        ("openharmony-ability-derive"@, "https://github.com/harmony-contrib/openharmony-ability.git"@, "MIT OR Apache-2.0"@, t[3]),
        ("openharmony-ability-plugin-files"@, "https://github.com/harmony-contrib/openharmony-ability.git"@, "MIT OR Apache-2.0"@, t[3]),
        ("napi-ohos"@, "https://github.com/ohos-rs/ohos-rs"@, "MIT"@, t[5]),
        ("napi-derive-ohos"@, "https://github.com/ohos-rs/ohos-rs"@, "MIT"@, t[6]),
        ("napi-derive-backend-ohos"@, "https://github.com/ohos-rs/ohos-rs"@, "MIT"@, t[7]),
        ("ohos-hilog-binding"@, "https://crates.io/crates/ohos-hilog-binding"@, "MIT OR Apache-2.0"@, merged_license(seq![t[9], t[8]])),
        ("log"@, "https://github.com/rust-lang/log"@, "MIT OR Apache-2.0"@, merged_license(seq![t[11], t[10]])),
        ("localsend"@, "https://github.com/localsend/localsend.git"@, "Apache-2.0"@, t[4]),
        ("tokio"@, "https://github.com/tokio-rs/tokio"@, "MIT"@, t[12]),
        ("serde"@, "https://github.com/serde-rs/serde"@, "MIT OR Apache-2.0"@, merged_license(seq![t[14], t[13]])),
        ("serde_json"@, "https://github.com/serde-rs/json"@, "MIT OR Apache-2.0"@, merged_license(seq![t[16], t[15]])),
        ("anyhow"@, "https://github.com/dtolnay/anyhow"@, "MIT OR Apache-2.0"@, merged_license(seq![t[18], t[17]])),
        ("uuid"@, "https://github.com/uuid-rs/uuid"@, "Apache-2.0 OR MIT"@, merged_license(seq![t[20], t[19]])),
        ("rcgen"@, "https://github.com/rustls/rcgen"@, "MIT OR Apache-2.0"@, t[21]),
        ("reqwest"@, "https://github.com/seanmonstar/reqwest"@, "MIT OR Apache-2.0"@, merged_license(seq![t[23], t[22]])),
        ("futures-util"@, "https://github.com/rust-lang/futures-rs"@, "MIT OR Apache-2.0"@, merged_license(seq![t[25], t[24]])),
        ("chrono"@, "https://github.com/chronotope/chrono"@, "MIT OR Apache-2.0"@, t[26]),
        ("hyper"@, "https://github.com/hyperium/hyper"@, "MIT"@, t[27]),
        ("hyper-util"@, "https://github.com/hyperium/hyper-util"@, "MIT"@, t[28]),
        ("http-body-util"@, "https://github.com/hyperium/http-body"@, "MIT"@, t[29]),
        ("bytes"@, "https://github.com/tokio-rs/bytes"@, "MIT"@, t[30]),
        ("base64"@, "https://github.com/marshallpierce/rust-base64"@, "MIT OR Apache-2.0"@, merged_license(seq![t[32], t[31]])),
        ("tokio-rustls"@, "https://github.com/rustls/tokio-rustls"@, "MIT OR Apache-2.0"@, merged_license(seq![t[34], t[33]])),
        ("rustls"@, "https://github.com/rustls/rustls"@, "Apache-2.0 OR ISC OR MIT"@, merged_license(seq![t[37], t[35], t[36]])),
        ("if-addrs"@, "https://github.com/messense/if-addrs"@, "MIT OR BSD-3-Clause"@, merged_license(seq![t[39], t[38]])),
        ("socket2"@, "https://github.com/rust-lang/socket2"@, "MIT OR Apache-2.0"@, merged_license(seq![t[41], t[40]])),
        ("qrcode"@, "https://github.com/kennytm/qrcode-rust"@, "MIT OR Apache-2.0"@, merged_license(seq![t[43], t[42]])),
        ("urlencoding"@, "https://github.com/kornelski/rust_urlencoding"@, "MIT"@, t[44]),
        ("rust-embed"@, "https://pyrossh.dev/repos/rust-embed"@, "MIT"@, t[45]),
    ]
}

pub open spec fn lib_views(libs: Seq<ThirdPartyLib>) -> Seq<(Seq<char>, Seq<char>, Seq<char>, Seq<char>)> {
    libs.map_values(|l: ThirdPartyLib| (l.name@, l.repository@, l.license@, l.license_text@))
}

/// The credited libraries, in the order the page lists them; `texts[i]` is
/// the text of license file `i` of `license_file_names`.
#[verifier::rlimit(100)]
pub fn get_third_party_libs(texts: &Vec<String>) -> (r: Vec<ThirdPartyLib>)
    requires
        texts@.len() == LICENSE_FILE_COUNT,
    ensures
        lib_views(r@) == catalog(crate::net::string_views(texts@)),
{
    let ghost t = crate::net::string_views(texts@);
    let mut libs: Vec<ThirdPartyLib> = Vec::new();
    libs.push(ThirdPartyLib::new("gpui", "https://github.com/zed-industries/zed.git", "Apache-2.0", texts[0].clone()));
    assert(lib_views(libs@) =~= catalog(t).take(1));
    libs.push(ThirdPartyLib::new("gpui_platform", "https://github.com/zed-industries/zed.git", "Apache-2.0", texts[0].clone()));
    assert(lib_views(libs@) =~= catalog(t).take(2));
    libs.push(ThirdPartyLib::new("gpui-component", "https://github.com/longbridge/gpui-component.git", "Apache-2.0", texts[1].clone()));
    assert(lib_views(libs@) =~= catalog(t).take(3));
    libs.push(ThirdPartyLib::new("gpui-router", "https://github.com/justjavac/gpui-router", "MIT", texts[2].clone()));
    assert(lib_views(libs@) =~= catalog(t).take(4));
    libs.push(ThirdPartyLib::new("gpui-component-assets", "https://github.com/longbridge/gpui-component.git", "Apache-2.0", texts[1].clone()));
    assert(lib_views(libs@) =~= catalog(t).take(5));
    libs.push(ThirdPartyLib::new("openharmony-ability", "https://github.com/harmony-contrib/openharmony-ability.git", "MIT OR Apache-2.0", texts[3].clone()));
    assert(lib_views(libs@) =~= catalog(t).take(6));
    libs.push(ThirdPartyLib::new("openharmony-ability-derive", "https://github.com/harmony-contrib/openharmony-ability.git", "MIT OR Apache-2.0", texts[3].clone()));
    assert(lib_views(libs@) =~= catalog(t).take(7));
    libs.push(ThirdPartyLib::new("openharmony-ability-plugin-files", "https://github.com/harmony-contrib/openharmony-ability.git", "MIT OR Apache-2.0", texts[3].clone()));
    assert(lib_views(libs@) =~= catalog(t).take(8));
    libs.push(ThirdPartyLib::new("napi-ohos", "https://github.com/ohos-rs/ohos-rs", "MIT", texts[5].clone()));
    assert(lib_views(libs@) =~= catalog(t).take(9));
    libs.push(ThirdPartyLib::new("napi-derive-ohos", "https://github.com/ohos-rs/ohos-rs", "MIT", texts[6].clone()));
    assert(lib_views(libs@) =~= catalog(t).take(10));
    libs.push(ThirdPartyLib::new("napi-derive-backend-ohos", "https://github.com/ohos-rs/ohos-rs", "MIT", texts[7].clone()));
    assert(lib_views(libs@) =~= catalog(t).take(11));
    libs.push(ThirdPartyLib::new("ohos-hilog-binding", "https://crates.io/crates/ohos-hilog-binding", "MIT OR Apache-2.0", merge2(texts[9].as_str(), texts[8].as_str())));
    assert(lib_views(libs@) =~= catalog(t).take(12));
    libs.push(ThirdPartyLib::new("log", "https://github.com/rust-lang/log", "MIT OR Apache-2.0", merge2(texts[11].as_str(), texts[10].as_str())));
    assert(lib_views(libs@) =~= catalog(t).take(13));
    libs.push(ThirdPartyLib::new("localsend", "https://github.com/localsend/localsend.git", "Apache-2.0", texts[4].clone()));
    assert(lib_views(libs@) =~= catalog(t).take(14));
    libs.push(ThirdPartyLib::new("tokio", "https://github.com/tokio-rs/tokio", "MIT", texts[12].clone()));
    assert(lib_views(libs@) =~= catalog(t).take(15));
    libs.push(ThirdPartyLib::new("serde", "https://github.com/serde-rs/serde", "MIT OR Apache-2.0", merge2(texts[14].as_str(), texts[13].as_str())));
    assert(lib_views(libs@) =~= catalog(t).take(16));
    libs.push(ThirdPartyLib::new("serde_json", "https://github.com/serde-rs/json", "MIT OR Apache-2.0", merge2(texts[16].as_str(), texts[15].as_str())));
    assert(lib_views(libs@) =~= catalog(t).take(17));
    libs.push(ThirdPartyLib::new("anyhow", "https://github.com/dtolnay/anyhow", "MIT OR Apache-2.0", merge2(texts[18].as_str(), texts[17].as_str())));
    assert(lib_views(libs@) =~= catalog(t).take(18));
    libs.push(ThirdPartyLib::new("uuid", "https://github.com/uuid-rs/uuid", "Apache-2.0 OR MIT", merge2(texts[20].as_str(), texts[19].as_str())));
    assert(lib_views(libs@) =~= catalog(t).take(19));
    libs.push(ThirdPartyLib::new("rcgen", "https://github.com/rustls/rcgen", "MIT OR Apache-2.0", texts[21].clone()));
    assert(lib_views(libs@) =~= catalog(t).take(20));
    libs.push(ThirdPartyLib::new("reqwest", "https://github.com/seanmonstar/reqwest", "MIT OR Apache-2.0", merge2(texts[23].as_str(), texts[22].as_str())));
    assert(lib_views(libs@) =~= catalog(t).take(21));
    libs.push(ThirdPartyLib::new("futures-util", "https://github.com/rust-lang/futures-rs", "MIT OR Apache-2.0", merge2(texts[25].as_str(), texts[24].as_str())));
    assert(lib_views(libs@) =~= catalog(t).take(22));
    libs.push(ThirdPartyLib::new("chrono", "https://github.com/chronotope/chrono", "MIT OR Apache-2.0", texts[26].clone()));
    assert(lib_views(libs@) =~= catalog(t).take(23));
    libs.push(ThirdPartyLib::new("hyper", "https://github.com/hyperium/hyper", "MIT", texts[27].clone()));
    assert(lib_views(libs@) =~= catalog(t).take(24));
    libs.push(ThirdPartyLib::new("hyper-util", "https://github.com/hyperium/hyper-util", "MIT", texts[28].clone()));
    assert(lib_views(libs@) =~= catalog(t).take(25));
    libs.push(ThirdPartyLib::new("http-body-util", "https://github.com/hyperium/http-body", "MIT", texts[29].clone()));
    assert(lib_views(libs@) =~= catalog(t).take(26));
    libs.push(ThirdPartyLib::new("bytes", "https://github.com/tokio-rs/bytes", "MIT", texts[30].clone()));
    assert(lib_views(libs@) =~= catalog(t).take(27));
    libs.push(ThirdPartyLib::new("base64", "https://github.com/marshallpierce/rust-base64", "MIT OR Apache-2.0", merge2(texts[32].as_str(), texts[31].as_str())));
    assert(lib_views(libs@) =~= catalog(t).take(28));
    libs.push(ThirdPartyLib::new("tokio-rustls", "https://github.com/rustls/tokio-rustls", "MIT OR Apache-2.0", merge2(texts[34].as_str(), texts[33].as_str())));
    assert(lib_views(libs@) =~= catalog(t).take(29));
    libs.push(ThirdPartyLib::new("rustls", "https://github.com/rustls/rustls", "Apache-2.0 OR ISC OR MIT", merge3(texts[37].as_str(), texts[35].as_str(), texts[36].as_str())));
    assert(lib_views(libs@) =~= catalog(t).take(30));
    libs.push(ThirdPartyLib::new("if-addrs", "https://github.com/messense/if-addrs", "MIT OR BSD-3-Clause", merge2(texts[39].as_str(), texts[38].as_str())));
    assert(lib_views(libs@) =~= catalog(t).take(31));
    libs.push(ThirdPartyLib::new("socket2", "https://github.com/rust-lang/socket2", "MIT OR Apache-2.0", merge2(texts[41].as_str(), texts[40].as_str())));
    assert(lib_views(libs@) =~= catalog(t).take(32));
    libs.push(ThirdPartyLib::new("qrcode", "https://github.com/kennytm/qrcode-rust", "MIT OR Apache-2.0", merge2(texts[43].as_str(), texts[42].as_str())));
    assert(lib_views(libs@) =~= catalog(t).take(33));
    libs.push(ThirdPartyLib::new("urlencoding", "https://github.com/kornelski/rust_urlencoding", "MIT", texts[44].clone()));
    assert(lib_views(libs@) =~= catalog(t).take(34));
    libs.push(ThirdPartyLib::new("rust-embed", "https://pyrossh.dev/repos/rust-embed", "MIT", texts[45].clone()));
    assert(lib_views(libs@) =~= catalog(t).take(35));
    assert(catalog(t).take(35) =~= catalog(t));
    libs
}


/// The rows of the licenses page whose text is unfolded, by library name.
#[derive(Clone, Debug)]
pub struct ExpandedRows {
    names: Vec<String>,
}

impl View for ExpandedRows {
    type V = Set<Seq<char>>;

    closed spec fn view(&self) -> Set<Seq<char>> {
        crate::net::string_views(self.names@).to_set()
    }
}

impl ExpandedRows {
    /// No name is held twice.
    pub closed spec fn well_formed(&self) -> bool {
        crate::net::string_views(self.names@).no_duplicates()
    }

    /// Nothing unfolded.
    pub fn new() -> (r: Self)
        ensures
            r.well_formed(),
            r@ == Set::<Seq<char>>::empty(),
    {
        let r = ExpandedRows { names: Vec::new() };
        assert(crate::net::string_views(r.names@).to_set() =~= Set::<Seq<char>>::empty());
        r
    }

    fn position(&self, name: &str) -> (r: Option<usize>)
        ensures
            match r {
                Some(i) => i < self.names@.len() && self.names@[i as int]@ == name@,
                None => !crate::net::string_views(self.names@).contains(name@),
            },
    {
        let target = chars_of(name);
        let mut i: usize = 0;
        while i < self.names.len()
            invariant
                0 <= i <= self.names@.len(),
                target@ == name@,
                forall|j: int| 0 <= j < i ==> (#[trigger] self.names@[j])@ != name@,
            decreases self.names@.len() - i,
        {
            let c = chars_of(self.names[i].as_str());
            if crate::text::chars_eq(c.as_slice(), target.as_slice()) {
                return Some(i);
            }
            i = i + 1;
        }
        assert forall|j: int| 0 <= j < self.names@.len() implies crate::net::string_views(
            self.names@,
        )[j] != name@ by {
            assert(crate::net::string_views(self.names@)[j] == self.names@[j]@);
        }
        None
    }

    /// Whether a library's text is unfolded.
    pub fn is_expanded(&self, name: &str) -> (b: bool)
        ensures
            b == self@.contains(name@),
    {
        let r = self.position(name);
        match r {
            Some(i) => {
                assert(crate::net::string_views(self.names@)[i as int] == name@);
                true
            },
            None => false,
        }
    }

    /// Folds an unfolded row and unfolds a folded one.
    pub fn toggle_expanded(&mut self, name: &str)
        requires
            old(self).well_formed(),
        ensures
            final(self).well_formed(),
            final(self)@ == (if old(self)@.contains(name@) {
                old(self)@.remove(name@)
            } else {
                old(self)@.insert(name@)
            }),
    {
        let ghost before = crate::net::string_views(self.names@);
        match self.position(name) {
            Some(i) => {
                self.names.remove(i);
                let ghost after = crate::net::string_views(self.names@);
                assert(after =~= before.remove(i as int));
                assert(before[i as int] == name@);
                assert(before.to_set().contains(name@));
                assert forall|x: Seq<char>| #[trigger] after.to_set().contains(x) == before.to_set().remove(
                    name@,
                ).contains(x) by {
                    if after.contains(x) {
                        let k = choose|k: int| 0 <= k < after.len() && after[k] == x;
                        if k < i {
                            assert(before[k] == x);
                        } else {
                            assert(before[k + 1] == x);
                        }
                    }
                    if before.contains(x) && x != name@ {
                        let k = choose|k: int| 0 <= k < before.len() && before[k] == x;
                        if k < i {
                            assert(after[k] == x);
                        } else {
                            assert(after[k - 1] == x);
                        }
                    }
                }
                assert(after.to_set() =~= before.to_set().remove(name@));
            },
            None => {
                self.names.push(name.to_owned());
                let ghost after = crate::net::string_views(self.names@);
                assert(after =~= before.push(name@));
                assert forall|x: Seq<char>| #[trigger] after.to_set().contains(x) == before.to_set().insert(
                    name@,
                ).contains(x) by {
                    if after.contains(x) {
                        let k = choose|k: int| 0 <= k < after.len() && after[k] == x;
                        if k < before.len() {
                            assert(before[k] == x);
                        }
                    }
                    if before.contains(x) {
                        let k = choose|k: int| 0 <= k < before.len() && before[k] == x;
                        assert(after[k] == x);
                    }
                    if x == name@ {
                        assert(after[before.len() as int] == x);
                    }
                }
                assert(after.to_set() =~= before.to_set().insert(name@));
            },
        }
    }
}

/// Unfolding and folding a row again leaves the page as it was.
pub proof fn lemma_toggle_twice_restores(s: Set<Seq<char>>, name: Seq<char>)
    ensures
        ({
            let once = if s.contains(name) {
                s.remove(name)
            } else {
                s.insert(name)
            };
            let twice = if once.contains(name) {
                once.remove(name)
            } else {
                once.insert(name)
            };
            twice == s
        }),
{
    if s.contains(name) {
        assert(s.remove(name).insert(name) =~= s);
    } else {
        assert(s.insert(name).remove(name) =~= s);
    }
}

} // verus!
