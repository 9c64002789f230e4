//! What a file is, told from its extension.
//!
//! The tables are keyed by the extension in lower case, without the dot. A file without
//! an extension is in none of them: its content type is unknown, it has no language, and
//! it is not left out as binary.

use vstd::prelude::*;
use crate::domain::models::ContentType;

verus! {

/// Whether files with this extension hold source code.
pub open spec fn code_extension(ext: Seq<char>) -> bool {
    ||| ext == "rs"@
    ||| ext == "py"@
    ||| ext == "js"@
    ||| ext == "ts"@
    ||| ext == "go"@
    ||| ext == "java"@
    ||| ext == "c"@
    ||| ext == "cpp"@
    ||| ext == "h"@
    ||| ext == "hpp"@
    ||| ext == "cs"@
    ||| ext == "rb"@
    ||| ext == "php"@
    ||| ext == "swift"@
    ||| ext == "kt"@
    ||| ext == "scala"@
    ||| ext == "sql"@
    ||| ext == "sh"@
    ||| ext == "bash"@
    ||| ext == "ps1"@
    ||| ext == "psm1"@
    ||| ext == "jsx"@
    ||| ext == "tsx"@
    ||| ext == "vue"@
    ||| ext == "svelte"@
}

/// The content type of files with this extension; unknown for an extension
/// that the table does not hold.
pub open spec fn content_type_of(ext: Seq<char>) -> ContentType {
    if ext == "md"@ || ext == "markdown"@ {
        ContentType::Markdown
    } else if ext == "html"@ || ext == "htm"@ {
        ContentType::Html
    } else if ext == "json"@ {
        ContentType::Json
    } else if ext == "xml"@ {
        ContentType::Xml
    } else if ext == "yaml"@ || ext == "yml"@ {
        ContentType::Yaml
    } else if ext == "txt"@ {
        ContentType::Text
    } else if code_extension(ext) {
        ContentType::Code
    } else {
        ContentType::Unknown
    }
}

/// The language of files with this extension; none for an extension that the table
/// does not hold.
pub open spec fn language_of(ext: Seq<char>) -> Option<Seq<char>> {
    if ext == "rs"@ {
        Some("rust"@)
    } else if ext == "py"@ {
        Some("python"@)
    } else if ext == "js"@ || ext == "jsx"@ {
        Some("javascript"@)
    } else if ext == "ts"@ || ext == "tsx"@ {
        Some("typescript"@)
    } else if ext == "go"@ {
        Some("go"@)
    } else if ext == "java"@ {
        Some("java"@)
    } else if ext == "c"@ || ext == "h"@ || ext == "hpp"@ {
        Some("c"@)
    } else if ext == "cpp"@ || ext == "cc"@ || ext == "cxx"@ {
        Some("cpp"@)
    } else if ext == "cs"@ {
        Some("csharp"@)
    } else if ext == "rb"@ {
        Some("ruby"@)
    } else if ext == "php"@ {
        Some("php"@)
    } else if ext == "swift"@ {
        Some("swift"@)
    } else if ext == "kt"@ {
        Some("kotlin"@)
    } else if ext == "scala"@ {
        Some("scala"@)
    } else if ext == "sql"@ {
        Some("sql"@)
    } else if ext == "sh"@ || ext == "bash"@ {
        Some("shell"@)
    } else if ext == "ps1"@ || ext == "psm1"@ {
        Some("powershell"@)
    } else if ext == "vue"@ {
        Some("vue"@)
    } else if ext == "svelte"@ {
        Some("svelte"@)
    } else if ext == "md"@ || ext == "markdown"@ {
        Some("markdown"@)
    } else if ext == "json"@ {
        Some("json"@)
    } else if ext == "yaml"@ || ext == "yml"@ {
        Some("yaml"@)
    } else if ext == "xml"@ {
        Some("xml"@)
    } else if ext == "html"@ || ext == "htm"@ {
        Some("html"@)
    } else if ext == "css"@ {
        Some("css"@)
    } else if ext == "scss"@ || ext == "sass"@ {
        Some("scss"@)
    } else {
        None
    }
}

/// Whether files with this extension are left out as binary or media files: images, fonts,
/// office documents, archives, executables, audio and video, databases and lockfiles.
pub open spec fn binary_extension(ext: Seq<char>) -> bool {
    ||| ext == "png"@ || ext == "jpg"@ || ext == "jpeg"@ || ext == "gif"@ || ext == "ico"@
    ||| ext == "svg"@ || ext == "webp"@ || ext == "bmp"@
    ||| ext == "woff"@ || ext == "woff2"@ || ext == "ttf"@ || ext == "eot"@ || ext == "otf"@
    ||| ext == "pdf"@ || ext == "doc"@ || ext == "docx"@ || ext == "xls"@ || ext == "xlsx"@
    ||| ext == "ppt"@ || ext == "pptx"@
    ||| ext == "zip"@ || ext == "tar"@ || ext == "gz"@ || ext == "rar"@ || ext == "7z"@
    ||| ext == "exe"@ || ext == "dll"@ || ext == "so"@ || ext == "dylib"@ || ext == "bin"@
    ||| ext == "mp3"@ || ext == "mp4"@ || ext == "wav"@ || ext == "avi"@ || ext == "mov"@
    ||| ext == "mkv"@
    ||| ext == "db"@ || ext == "sqlite"@ || ext == "lock"@
}

/// Whether files with the extension `ext` hold source code.
pub fn is_code_extension(ext: &str) -> (r: bool)
    ensures
        r == code_extension(ext@),
{
    ext.eq("rs") || ext.eq("py") || ext.eq("js") || ext.eq("ts") || ext.eq("go") || ext.eq("java")
        || ext.eq("c") || ext.eq("cpp") || ext.eq("h") || ext.eq("hpp") || ext.eq("cs") || ext.eq(
        "rb",
    ) || ext.eq("php") || ext.eq("swift") || ext.eq("kt") || ext.eq("scala") || ext.eq("sql")
        || ext.eq("sh") || ext.eq("bash") || ext.eq("ps1") || ext.eq("psm1") || ext.eq("jsx")
        || ext.eq("tsx") || ext.eq("vue") || ext.eq("svelte")
}

/// The content type of files with the extension `ext`, given in lower case.
pub fn content_type_for(ext: &str) -> (r: ContentType)
    ensures
        r == content_type_of(ext@),
{
    if ext.eq("md") || ext.eq("markdown") {
        ContentType::Markdown
    } else if ext.eq("html") || ext.eq("htm") {
        ContentType::Html
    } else if ext.eq("json") {
        ContentType::Json
    } else if ext.eq("xml") {
        ContentType::Xml
    } else if ext.eq("yaml") || ext.eq("yml") {
        ContentType::Yaml
    } else if ext.eq("txt") {
        ContentType::Text
    } else if is_code_extension(ext) {
        ContentType::Code
    } else {
        ContentType::Unknown
    }
}

/// The name of the language of files with the extension `ext`, given in lower case.
pub fn language_name_for(ext: &str) -> (r: Option<&'static str>)
    ensures
        r.deep_view() == language_of(ext@),
{
    if ext.eq("rs") {
        Some("rust")
    } else if ext.eq("py") {
        Some("python")
    } else if ext.eq("js") || ext.eq("jsx") {
        Some("javascript")
    } else if ext.eq("ts") || ext.eq("tsx") {
        Some("typescript")
    } else if ext.eq("go") {
        Some("go")
    } else if ext.eq("java") {
        Some("java")
    } else if ext.eq("c") || ext.eq("h") || ext.eq("hpp") {
        Some("c")
    } else if ext.eq("cpp") || ext.eq("cc") || ext.eq("cxx") {
        Some("cpp")
    } else if ext.eq("cs") {
        Some("csharp")
    } else if ext.eq("rb") {
        Some("ruby")
    } else if ext.eq("php") {
        Some("php")
    } else if ext.eq("swift") {
        Some("swift")
    } else if ext.eq("kt") {
        Some("kotlin")
    } else if ext.eq("scala") {
        Some("scala")
    } else if ext.eq("sql") {
        Some("sql")
    } else if ext.eq("sh") || ext.eq("bash") {
        Some("shell")
    } else if ext.eq("ps1") || ext.eq("psm1") {
        Some("powershell")
    } else if ext.eq("vue") {
        Some("vue")
    } else if ext.eq("svelte") {
        Some("svelte")
    } else if ext.eq("md") || ext.eq("markdown") {
        Some("markdown")
    } else if ext.eq("json") {
        Some("json")
    } else if ext.eq("yaml") || ext.eq("yml") {
        Some("yaml")
    } else if ext.eq("xml") {
        Some("xml")
    } else if ext.eq("html") || ext.eq("htm") {
        Some("html")
    } else if ext.eq("css") {
        Some("css")
    } else if ext.eq("scss") || ext.eq("sass") {
        Some("scss")
    } else {
        None
    }
}

/// The language of files with the extension `ext`, given in lower case.
pub fn language_for(ext: &str) -> (r: Option<String>)
    ensures
        r.deep_view() == language_of(ext@),
{
    match language_name_for(ext) {
        Some(name) => Some(String::from_str(name)),
        None => None,
    }
}

/// Whether files with the extension `ext`, given in lower case, are left out as binary.
pub fn is_binary_extension(ext: &str) -> (r: bool)
    ensures
        r == binary_extension(ext@),
{
    ext.eq("png") || ext.eq("jpg") || ext.eq("jpeg") || ext.eq("gif") || ext.eq("ico") || ext.eq(
        "svg",
    ) || ext.eq("webp") || ext.eq("bmp") || ext.eq("woff") || ext.eq("woff2") || ext.eq("ttf")
        || ext.eq("eot") || ext.eq("otf") || ext.eq("pdf") || ext.eq("doc") || ext.eq("docx")
        || ext.eq("xls") || ext.eq("xlsx") || ext.eq("ppt") || ext.eq("pptx") || ext.eq("zip")
        || ext.eq("tar") || ext.eq("gz") || ext.eq("rar") || ext.eq("7z") || ext.eq("exe")
        || ext.eq("dll") || ext.eq("so") || ext.eq("dylib") || ext.eq("bin") || ext.eq("mp3")
        || ext.eq("mp4") || ext.eq("wav") || ext.eq("avi") || ext.eq("mov") || ext.eq("mkv")
        || ext.eq("db") || ext.eq("sqlite") || ext.eq("lock")
}

/// The content type of a file with this extension, or with none: unknown for a file
/// without an extension.
pub open spec fn file_content_type(ext: Option<Seq<char>>) -> ContentType {
    match ext {
        Some(ext) => content_type_of(ext),
        None => ContentType::Unknown,
    }
}

/// The language of a file with this extension, or with none: none for a file without an
/// extension.
pub open spec fn file_language(ext: Option<Seq<char>>) -> Option<Seq<char>> {
    match ext {
        Some(ext) => language_of(ext),
        None => None,
    }
}

/// Whether a file with this extension, or with none, is left out as a binary or media
/// file: only an extension can put a file on that list.
pub open spec fn file_is_binary(ext: Option<Seq<char>>) -> bool {
    match ext {
        Some(ext) => binary_extension(ext),
        None => false,
    }
}

/// The content type of a file with the extension `ext`, given in lower case, or with none.
pub fn content_type_for_file(ext: &Option<String>) -> (r: ContentType)
    ensures
        r == file_content_type(ext.deep_view()),
{
    match ext {
        Some(ext) => content_type_for(ext.as_str()),
        None => ContentType::Unknown,
    }
}

/// The language of a file with the extension `ext`, given in lower case, or with none.
pub fn language_for_file(ext: &Option<String>) -> (r: Option<String>)
    ensures
        r.deep_view() == file_language(ext.deep_view()),
{
    match ext {
        Some(ext) => language_for(ext.as_str()),
        None => None,
    }
}

/// Whether a file with the extension `ext`, given in lower case, or with none, is left
/// out as binary.
pub fn is_binary_for_file(ext: &Option<String>) -> (r: bool)
    ensures
        r == file_is_binary(ext.deep_view()),
{
    match ext {
        Some(ext) => is_binary_extension(ext.as_str()),
        None => false,
    }
}

} // verus!
