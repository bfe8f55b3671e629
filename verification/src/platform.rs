//! The supported operating systems and their candidate font locations.

use vstd::prelude::*;

verus! {

/// The operating systems the resolver knows candidate font locations for.
///
/// `Other` stands for every platform outside the three recognized ones; it
/// has no candidate locations and resolution on it fails immediately.
#[derive(Clone, Copy, PartialEq, Eq, Structural, Debug)]
pub enum Platform {
    Windows,
    MacOs,
    Linux,
    Other,
}

/// The candidate font locations for `p`, in preference order (earlier is
/// more preferred). This is the single source of truth: the resolver scans
/// exactly this list, and `get_chinese_font_paths` returns exactly this list.
pub open spec fn candidate_list(p: Platform) -> Seq<Seq<char>> {
    match p {
        Platform::Windows => seq![
            r"C:\Windows\Fonts\msyh.ttc"@,
            r"C:\Windows\Fonts\msyhbd.ttc"@,
            r"C:\Windows\Fonts\simsun.ttc"@,
            r"C:\Windows\Fonts\simhei.ttf"@,
            r"C:\Windows\Fonts\simkai.ttf"@,
            r"C:\Windows\Fonts\simfang.ttf"@,
            r"C:\Windows\Fonts\msjh.ttc"@,
            r"C:\Windows\Fonts\msjhbd.ttc"@,
            r"C:\Windows\Fonts\kaiu.ttf"@,
            r"C:\Windows\Fonts\mingliu.ttc"@,
        ],
        Platform::MacOs => seq![
            "/System/Library/Fonts/PingFang.ttc"@,
            "/System/Library/Fonts/STHeiti Light.ttc"@,
            "/System/Library/Fonts/STHeiti Medium.ttc"@,
            "/System/Library/Fonts/Hiragino Sans GB.ttc"@,
            "/Library/Fonts/Arial Unicode.ttf"@,
            "/System/Library/Fonts/Apple LiGothic Medium.ttf"@,
        ],
        Platform::Linux => seq![
            "/usr/share/fonts/truetype/droid/DroidSansFallbackFull.ttf"@,
            "/usr/share/fonts/truetype/arphic/uming.ttc"@,
            "/usr/share/fonts/truetype/arphic/ukai.ttc"@,
            "/usr/share/fonts/truetype/wqy/wqy-microhei.ttc"@,
            "/usr/share/fonts/truetype/wqy/wqy-zenhei.ttc"@,
            "/usr/share/fonts/opentype/noto/NotoSansCJK-Regular.ttc"@,
            "/usr/share/fonts/truetype/liberation/LiberationSans-Regular.ttf"@,
            "/usr/share/fonts/truetype/dejavu/DejaVuSans.ttf"@,
            "/usr/share/fonts/google-droid/DroidSansFallbackFull.ttf"@,
            "/usr/share/fonts/noto-cjk/NotoSansCJK-Regular.ttc"@,
        ],
        Platform::Other => Seq::empty(),
    }
}

/// The candidate font paths for `p`, in preference order; empty exactly on
/// an unsupported platform. Useful for diagnosing why no font was found.
pub fn get_chinese_font_paths(p: Platform) -> (r: Vec<String>)
    ensures
        r.deep_view() == candidate_list(p),
        r@.len() == candidate_list(p).len(),
{
    let mut v: Vec<String> = Vec::new();
    match p {
        Platform::Windows => {
            v.push(r"C:\Windows\Fonts\msyh.ttc".to_owned());
            v.push(r"C:\Windows\Fonts\msyhbd.ttc".to_owned());
            v.push(r"C:\Windows\Fonts\simsun.ttc".to_owned());
            v.push(r"C:\Windows\Fonts\simhei.ttf".to_owned());
            v.push(r"C:\Windows\Fonts\simkai.ttf".to_owned());
            v.push(r"C:\Windows\Fonts\simfang.ttf".to_owned());
            v.push(r"C:\Windows\Fonts\msjh.ttc".to_owned());
            v.push(r"C:\Windows\Fonts\msjhbd.ttc".to_owned());
            v.push(r"C:\Windows\Fonts\kaiu.ttf".to_owned());
            v.push(r"C:\Windows\Fonts\mingliu.ttc".to_owned());
        }
        Platform::MacOs => {
            v.push("/System/Library/Fonts/PingFang.ttc".to_owned());
            v.push("/System/Library/Fonts/STHeiti Light.ttc".to_owned());
            v.push("/System/Library/Fonts/STHeiti Medium.ttc".to_owned());
            v.push("/System/Library/Fonts/Hiragino Sans GB.ttc".to_owned());
            v.push("/Library/Fonts/Arial Unicode.ttf".to_owned());
            v.push("/System/Library/Fonts/Apple LiGothic Medium.ttf".to_owned());
        }
        Platform::Linux => {
            v.push("/usr/share/fonts/truetype/droid/DroidSansFallbackFull.ttf".to_owned());
            v.push("/usr/share/fonts/truetype/arphic/uming.ttc".to_owned());
            v.push("/usr/share/fonts/truetype/arphic/ukai.ttc".to_owned());
            v.push("/usr/share/fonts/truetype/wqy/wqy-microhei.ttc".to_owned());
            v.push("/usr/share/fonts/truetype/wqy/wqy-zenhei.ttc".to_owned());
            v.push("/usr/share/fonts/opentype/noto/NotoSansCJK-Regular.ttc".to_owned());
            v.push("/usr/share/fonts/truetype/liberation/LiberationSans-Regular.ttf".to_owned());
            v.push("/usr/share/fonts/truetype/dejavu/DejaVuSans.ttf".to_owned());
            v.push("/usr/share/fonts/google-droid/DroidSansFallbackFull.ttf".to_owned());
            v.push("/usr/share/fonts/noto-cjk/NotoSansCJK-Regular.ttc".to_owned());
        }
        Platform::Other => {}
    }
    assert(v.deep_view() =~~= candidate_list(p));
    v
}

} // verus!
