//! Colors of file categories for charts of disk usage.
use vstd::prelude::*;
use vstd::hash_map::StringHashMap;
use crate::text::{chars_of, lower_seq, string_from_chars, to_lower};
use crate::winpath::{in_lits, lits};

verus! {

/// Kinds of files, by extension.
#[derive(Debug, Clone, Copy, PartialEq, Eq, Hash, Structural)]
pub enum FileCategory {
    Executable,
    Document,
    Media,
    Code,
    System,
    Temporary,
    Archive,
    Data,
    Other,
}

/// A color as red, green and blue.
#[derive(Debug, Clone, Copy, PartialEq, Eq, Structural)]
pub struct Rgb {
    pub r: u8,
    pub g: u8,
    pub b: u8,
}

pub open spec fn rgb(r: u8, g: u8, b: u8) -> Rgb {
    Rgb { r, g, b }
}

impl FileCategory {
    pub open spec fn spec_color(self) -> Rgb {
        match self {
            FileCategory::Executable => rgb(220, 53, 69),
            FileCategory::Document => rgb(72, 166, 233),
            FileCategory::Media => rgb(156, 39, 176),
            FileCategory::Code => rgb(76, 175, 80),
            FileCategory::System => rgb(255, 152, 0),
            FileCategory::Temporary => rgb(158, 158, 158),
            FileCategory::Archive => rgb(255, 193, 7),
            FileCategory::Data => rgb(0, 150, 136),
            FileCategory::Other => rgb(121, 134, 203),
        }
    }

    pub open spec fn spec_index(self) -> int {
        match self {
            FileCategory::Executable => 0,
            FileCategory::Document => 1,
            FileCategory::Media => 2,
            FileCategory::Code => 3,
            FileCategory::System => 4,
            FileCategory::Temporary => 5,
            FileCategory::Archive => 6,
            FileCategory::Data => 7,
            FileCategory::Other => 8,
        }
    }

    pub fn label(self) -> (r: &'static str)
        ensures
            r@ == (match self {
                FileCategory::Executable => "可执行文件"@,
                FileCategory::Document => "文档"@,
                FileCategory::Media => "媒体"@,
                FileCategory::Code => "代码"@,
                FileCategory::System => "系统"@,
                FileCategory::Temporary => "临时"@,
                FileCategory::Archive => "压缩包"@,
                FileCategory::Data => "数据"@,
                FileCategory::Other => "其它"@,
            }),
    {
        match self {
            FileCategory::Executable => "可执行文件",
            FileCategory::Document => "文档",
            FileCategory::Media => "媒体",
            FileCategory::Code => "代码",
            FileCategory::System => "系统",
            FileCategory::Temporary => "临时",
            FileCategory::Archive => "压缩包",
            FileCategory::Data => "数据",
            FileCategory::Other => "其它",
        }
    }

    pub fn icon(self) -> (r: &'static str)
        ensures
            r@ == (match self {
                FileCategory::Executable => "⚙"@,
                FileCategory::Document => "📄"@,
                FileCategory::Media => "🎬"@,
                FileCategory::Code => "💻"@,
                FileCategory::System => "🔧"@,
                FileCategory::Temporary => "🗑"@,
                FileCategory::Archive => "📦"@,
                FileCategory::Data => "📊"@,
                FileCategory::Other => ""@,
            }),
    {
        match self {
            FileCategory::Executable => "⚙",
            FileCategory::Document => "📄",
            FileCategory::Media => "🎬",
            FileCategory::Code => "💻",
            FileCategory::System => "🔧",
            FileCategory::Temporary => "🗑",
            FileCategory::Archive => "📦",
            FileCategory::Data => "📊",
            FileCategory::Other => "",
        }
    }

    /// The color a category is drawn in.
    pub fn default_color(self) -> (r: Rgb)
        ensures
            r == self.spec_color(),
    {
        match self {
            FileCategory::Executable => Rgb { r: 220, g: 53, b: 69 },
            FileCategory::Document => Rgb { r: 72, g: 166, b: 233 },
            FileCategory::Media => Rgb { r: 156, g: 39, b: 176 },
            FileCategory::Code => Rgb { r: 76, g: 175, b: 80 },
            FileCategory::System => Rgb { r: 255, g: 152, b: 0 },
            FileCategory::Temporary => Rgb { r: 158, g: 158, b: 158 },
            FileCategory::Archive => Rgb { r: 255, g: 193, b: 7 },
            FileCategory::Data => Rgb { r: 0, g: 150, b: 136 },
            FileCategory::Other => Rgb { r: 121, g: 134, b: 203 },
        }
    }
}
pub open spec fn executable_extensions() -> Seq<Seq<char>> {
    seq!["exe"@, "dll"@, "msi"@, "cab"@, "com"@, "bat"@, "cmd"@, "ps1"@]
}
pub open spec fn document_extensions() -> Seq<Seq<char>> {
    seq!["doc"@, "docx"@, "pdf"@, "txt"@, "rtf"@, "odt"@, "xlsx"@, "xls"@, "ppt"@, "pptx"@, "md"@, "html"@, "htm"@]
}
pub open spec fn media_extensions() -> Seq<Seq<char>> {
    seq!["mp4"@, "mp3"@, "jpg"@, "jpeg"@, "png"@, "gif"@, "bmp"@, "avi"@, "mov"@, "mkv"@, "wmv"@, "flv"@, "wav"@, "flac"@, "aac"@, "ogg"@, "wma"@, "webm"@, "svg"@, "ico"@, "tiff"@, "webp"@]
}
pub open spec fn code_extensions() -> Seq<Seq<char>> {
    seq!["rs"@, "py"@, "js"@, "ts"@, "cpp"@, "c"@, "h"@, "hpp"@, "java"@, "go"@, "rb"@, "php"@, "swift"@, "kt"@, "cs"@, "lua"@, "sh"@, "bash"@, "zsh"@, "fish"@, "psm1"@, "asm"@, "s"@]
}
pub open spec fn system_extensions() -> Seq<Seq<char>> {
    seq!["sys"@, "drv"@, "cat"@, "inf"@, "reg"@, "dll"@, "ocx"@, "ax"@]
}
pub open spec fn temporary_extensions() -> Seq<Seq<char>> {
    seq!["tmp"@, "temp"@, "log"@, "bak"@, "old"@, "swp"@, "cache"@]
}
pub open spec fn archive_extensions() -> Seq<Seq<char>> {
    seq!["zip"@, "rar"@, "7z"@, "tar"@, "gz"@, "bz2"@, "xz"@, "cab"@, "iso"@, "dmg"@, "pkg"@, "deb"@, "rpm"@]
}
pub open spec fn data_extensions() -> Seq<Seq<char>> {
    seq!["json"@, "xml"@, "csv"@, "yaml"@, "yml"@, "toml"@, "ini"@, "cfg"@, "conf"@, "sql"@, "db"@, "sqlite"@]
}
/// The category of an extension (without its dot, any case): the first category whose
/// list holds it, in the order executable, document, media, code, system, temporary,
/// archive, data; other extensions are `Other`.
pub open spec fn spec_category(extension: Seq<char>) -> FileCategory {
    let e = lower_seq(extension);
    if executable_extensions().contains(e) {
        FileCategory::Executable
    } else if document_extensions().contains(e) {
        FileCategory::Document
    } else if media_extensions().contains(e) {
        FileCategory::Media
    } else if code_extensions().contains(e) {
        FileCategory::Code
    } else if system_extensions().contains(e) {
        FileCategory::System
    } else if temporary_extensions().contains(e) {
        FileCategory::Temporary
    } else if archive_extensions().contains(e) {
        FileCategory::Archive
    } else if data_extensions().contains(e) {
        FileCategory::Data
    } else {
        FileCategory::Other
    }
}

fn category_of_lowercase(e: &[char]) -> (r: FileCategory)
    requires
        lower_seq(e@) == e@,
    ensures
        r == spec_category(e@),
{
    let executable = vec!["exe", "dll", "msi", "cab", "com", "bat", "cmd", "ps1"];
    assert(lits(executable@) =~= executable_extensions());
    let document = vec!["doc", "docx", "pdf", "txt", "rtf", "odt", "xlsx", "xls", "ppt", "pptx", "md", "html", "htm"];
    assert(lits(document@) =~= document_extensions());
    let media = vec!["mp4", "mp3", "jpg", "jpeg", "png", "gif", "bmp", "avi", "mov", "mkv", "wmv", "flv", "wav", "flac", "aac", "ogg", "wma", "webm", "svg", "ico", "tiff", "webp"];
    assert(lits(media@) =~= media_extensions());
    let code = vec!["rs", "py", "js", "ts", "cpp", "c", "h", "hpp", "java", "go", "rb", "php", "swift", "kt", "cs", "lua", "sh", "bash", "zsh", "fish", "psm1", "asm", "s"];
    assert(lits(code@) =~= code_extensions());
    let system = vec!["sys", "drv", "cat", "inf", "reg", "dll", "ocx", "ax"];
    assert(lits(system@) =~= system_extensions());
    let temporary = vec!["tmp", "temp", "log", "bak", "old", "swp", "cache"];
    assert(lits(temporary@) =~= temporary_extensions());
    let archive = vec!["zip", "rar", "7z", "tar", "gz", "bz2", "xz", "cab", "iso", "dmg", "pkg", "deb", "rpm"];
    assert(lits(archive@) =~= archive_extensions());
    let data = vec!["json", "xml", "csv", "yaml", "yml", "toml", "ini", "cfg", "conf", "sql", "db", "sqlite"];
    assert(lits(data@) =~= data_extensions());
    if in_lits(executable.as_slice(), e) {
        FileCategory::Executable
    } else if in_lits(document.as_slice(), e) {
        FileCategory::Document
    } else if in_lits(media.as_slice(), e) {
        FileCategory::Media
    } else if in_lits(code.as_slice(), e) {
        FileCategory::Code
    } else if in_lits(system.as_slice(), e) {
        FileCategory::System
    } else if in_lits(temporary.as_slice(), e) {
        FileCategory::Temporary
    } else if in_lits(archive.as_slice(), e) {
        FileCategory::Archive
    } else if in_lits(data.as_slice(), e) {
        FileCategory::Data
    } else {
        FileCategory::Other
    }
}

/// Colors by category, with a cache of the categories and colors of extensions seen.
pub struct ColorPalette {
    category_colors: Vec<Rgb>,
    extension_cache: StringHashMap<(FileCategory, Rgb)>,
}

impl ColorPalette {
    /// Every category has its color and every cached extension its category and color.
    pub closed spec fn wf(&self) -> bool {
        &&& self.category_colors@.len() == 9
        &&& forall|c: FileCategory| #[trigger] self.category_colors@[c.spec_index()] == c.spec_color()
        &&& forall|k: Seq<char>| #[trigger] self.extension_cache@.contains_key(k) ==> self.extension_cache@[k] == (
            spec_category(k),
            spec_category(k).spec_color(),
        )
    }

    pub fn new() -> (r: Self)
        ensures
            r.wf(),
    {
        let category_colors = vec![
            FileCategory::Executable.default_color(),
            FileCategory::Document.default_color(),
            FileCategory::Media.default_color(),
            FileCategory::Code.default_color(),
            FileCategory::System.default_color(),
            FileCategory::Temporary.default_color(),
            FileCategory::Archive.default_color(),
            FileCategory::Data.default_color(),
            FileCategory::Other.default_color(),
        ];
        let r = ColorPalette { category_colors, extension_cache: StringHashMap::new() };
        assert forall|c: FileCategory| #[trigger] r.category_colors@[c.spec_index()] == c.spec_color() by {
            match c {
                FileCategory::Executable => {},
                FileCategory::Document => {},
                FileCategory::Media => {},
                FileCategory::Code => {},
                FileCategory::System => {},
                FileCategory::Temporary => {},
                FileCategory::Archive => {},
                FileCategory::Data => {},
                FileCategory::Other => {},
            }
        }
        r
    }

    /// The color of an extension (without its dot, any case).
    pub fn color_for_extension(&self, extension: &str) -> (r: Rgb)
        requires
            self.wf(),
        ensures
            r == spec_category(extension@).spec_color(),
    {
        let category = Self::category_for_extension_static(extension);
        self.color_for_category(category)
    }

    /// The color of an extension, without a palette.
    pub fn color_for_extension_static(extension: &str) -> (r: Rgb)
        ensures
            r == spec_category(extension@).spec_color(),
    {
        Self::category_for_extension_static(extension).default_color()
    }

    /// The color of an extension, remembered for the next call.
    pub fn color_for_extension_cached(&mut self, extension: &str) -> (r: Rgb)
        requires
            old(self).wf(),
        ensures
            final(self).wf(),
            r == spec_category(extension@).spec_color(),
    {
        let v = chars_of(extension);
        let lower = to_lower(v.as_slice());
        let key = string_from_chars(lower.as_slice());
        proof {
            lemma_lower_idempotent(extension@);
        }
        match self.extension_cache.get(key.as_str()) {
            Some(entry) => {
                return entry.1;
            },
            None => {},
        }
        let category = category_of_lowercase(lower.as_slice());
        let color = self.color_for_category(category);
        self.extension_cache.insert(key, (category, color));
        color
    }

    /// The category of an extension (without its dot, any case).
    pub fn category_for_extension_static(extension: &str) -> (r: FileCategory)
        ensures
            r == spec_category(extension@),
    {
        let v = chars_of(extension);
        let lower = to_lower(v.as_slice());
        proof {
            lemma_lower_idempotent(extension@);
        }
        category_of_lowercase(lower.as_slice())
    }

    /// The category of an extension (without its dot, any case).
    pub fn category_for_extension(&self, extension: &str) -> (r: FileCategory)
        ensures
            r == spec_category(extension@),
    {
        Self::category_for_extension_static(extension)
    }

    /// The color of a category.
    pub fn color_for_category(&self, category: FileCategory) -> (r: Rgb)
        requires
            self.wf(),
        ensures
            r == category.spec_color(),
    {
        let i: usize = match category {
            FileCategory::Executable => 0,
            FileCategory::Document => 1,
            FileCategory::Media => 2,
            FileCategory::Code => 3,
            FileCategory::System => 4,
            FileCategory::Temporary => 5,
            FileCategory::Archive => 6,
            FileCategory::Data => 7,
            FileCategory::Other => 8,
        };
        assert(self.category_colors@[category.spec_index()] == category.spec_color());
        self.category_colors[i]
    }
}

impl Default for ColorPalette {
    fn default() -> (r: Self)
        ensures
            r.wf(),
    {
        Self::new()
    }
}

/// Lowercasing twice is lowercasing once.
pub proof fn lemma_lower_idempotent(s: Seq<char>)
    ensures
        lower_seq(lower_seq(s)) == lower_seq(s),
{
    assert(lower_seq(lower_seq(s)) =~= lower_seq(s));
}

} // verus!
