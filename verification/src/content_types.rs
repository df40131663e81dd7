//! MIME content types: canonical strings and file-suffix classification.

use crate::text::{scan_char, scan_char_str, str_eq};
use vstd::prelude::*;
use vstd::string::*;

verus! {

/// The closed set of content types the library knows. Some wire strings
/// appear under two names; the duplicates are kept so that every file
/// suffix maps to a value of its own.
#[derive(Debug, PartialEq, Eq, Copy, Clone, Structural)]
pub enum ContentType {
    TextHtmlCharsetUtf8,
    TextPlainCharsetUtf8,
    TextCssCharsetUtf8,
    TextJavascriptCharsetUtf8,
    ImageJpeg,
    ImagePng,
    ImageGif,
    ImageSvgXml,
    ImageWebp,
    ImageBmp,
    ImageTiff,
    ApplicationJson,
    ApplicationXml,
    ApplicationPdf,
    ApplicationZip,
    ApplicationOctetStream,
    ApplicationXAbiword,
    ImageApng,
    ApplicationXFreearc,
    VideoXMsvideo,
    ApplicationVndAmazonEbook,
    ApplicationOctetStreamDuplicate,
    ImageBmpDuplicate,
    ApplicationXBzip,
    ApplicationXBzip2,
    ApplicationXCdf,
    ApplicationXCsh,
    ApplicationVndOpenxmlformatsOfficedocumentWordprocessingmlDocument,
    ApplicationVndMsFontobject,
    ApplicationEpubZip,
    ApplicationGzip,
    ApplicationVndMicrosoftIcon,
    ApplicationJavaArchive,
    ApplicationJsonDuplicate,
    ApplicationLdJson,
    AudioMidi,
    AudioXMidi,
    TextJavascriptDuplicate,
    AudioMpeg,
    VideoMp4,
    VideoMpeg,
    ApplicationVndAppleInstallerXml,
    ApplicationVndOasisOpendocumentPresentation,
    ApplicationVndOasisOpendocumentSpreadsheet,
    ApplicationVndOasisOpendocumentText,
    AudioOgg,
    FontOtf,
    ApplicationOgg,
    AudioOggDuplicate,
    ApplicationXHttpdPhp,
    ApplicationVndMsPowerpoint,
    ApplicationVndOpenxmlformatsOfficedocumentPresentationmlPresentation,
    ApplicationVndRar,
    ApplicationRtf,
    ApplicationXSh,
    ImageSvgXmlDuplicate,
    ApplicationXTar,
    ImageTiffDuplicate,
    VideoMp2t,
    ApplicationXShDuplicate,
    FontTtf,
    TextPlainDuplicate,
    ApplicationVndVisio,
    AudioWav,
    AudioWebm,
    VideoWebm,
    ImageWebpDuplicate,
    FontWoff,
    FontWoff2,
    ApplicationXhtmlXml,
    ApplicationVndMsExcel,
    ApplicationVndOpenxmlformatsOfficedocumentSpreadsheetmlSheet,
    ApplicationXmlDuplicate,
    ApplicationVndMozillaXulXml,
    ApplicationZipDuplicate,
    Video3gpp,
    Audio3gpp,
    Video3gpp2,
    Audio3gpp2,
    ApplicationX7zCompressed,
}

/// The canonical wire string of a content type.
pub open spec fn spec_content_type(value: ContentType) -> Seq<char> {
    match value {
        ContentType::TextHtmlCharsetUtf8 => "text/html; charset=utf-8"@,
        ContentType::TextPlainCharsetUtf8 => "text/plain; charset=utf-8"@,
        ContentType::TextCssCharsetUtf8 => "text/css; charset=utf-8"@,
        ContentType::TextJavascriptCharsetUtf8 => "text/javascript; charset=utf-8"@,
        ContentType::ImageJpeg => "image/jpeg"@,
        ContentType::ImagePng => "image/png"@,
        ContentType::ImageGif => "image/gif"@,
        ContentType::ImageSvgXml => "image/svg+xml"@,
        ContentType::ImageWebp => "image/webp"@,
        ContentType::ImageBmp => "image/bmp"@,
        ContentType::ImageTiff => "image/tiff"@,
        ContentType::ApplicationJson => "application/json"@,
        ContentType::ApplicationXml => "application/xml"@,
        ContentType::ApplicationPdf => "application/pdf"@,
        ContentType::ApplicationZip => "application/zip"@,
        ContentType::ApplicationOctetStream => "application/octet-stream"@,
        ContentType::ApplicationXAbiword => "application/x-abiword"@,
        ContentType::ImageApng => "image/apng"@,
        ContentType::ApplicationXFreearc => "application/x-freearc"@,
        ContentType::VideoXMsvideo => "video/x-msvideo"@,
        ContentType::ApplicationVndAmazonEbook => "application/vnd.amazon.ebook"@,
        ContentType::ApplicationOctetStreamDuplicate => "application/octet-stream"@,
        ContentType::ImageBmpDuplicate => "image/bmp"@,
        ContentType::ApplicationXBzip => "application/x-bzip"@,
        ContentType::ApplicationXBzip2 => "application/x-bzip2"@,
        ContentType::ApplicationXCdf => "application/x-cdf"@,
        ContentType::ApplicationXCsh => "application/x-csh"@,
        ContentType::ApplicationVndOpenxmlformatsOfficedocumentWordprocessingmlDocument => "application/vnd.openxmlformats-officedocument.wordprocessingml.document"@,
        ContentType::ApplicationVndMsFontobject => "application/vnd.ms-fontobject"@,
        ContentType::ApplicationEpubZip => "application/epub+zip"@,
        ContentType::ApplicationGzip => "application/gzip"@,
        ContentType::ApplicationVndMicrosoftIcon => "application/vnd.microsoft.icon"@,
        ContentType::ApplicationJavaArchive => "application/java-archive"@,
        ContentType::ApplicationJsonDuplicate => "application/json"@,
        ContentType::ApplicationLdJson => "application/ld+json"@,
        ContentType::AudioMidi => "audio/midi"@,
        ContentType::AudioXMidi => "audio/x-midi"@,
        ContentType::TextJavascriptDuplicate => "text/javascript"@,
        ContentType::AudioMpeg => "audio/mpeg"@,
        ContentType::VideoMp4 => "video/mp4"@,
        ContentType::VideoMpeg => "video/mpeg"@,
        ContentType::ApplicationVndAppleInstallerXml => "application/vnd.apple.installer+xml"@,
        ContentType::ApplicationVndOasisOpendocumentPresentation => "application/vnd.oasis.opendocument.presentation"@,
        ContentType::ApplicationVndOasisOpendocumentSpreadsheet => "application/vnd.oasis.opendocument.spreadsheet"@,
        ContentType::ApplicationVndOasisOpendocumentText => "application/vnd.oasis.opendocument.text"@,
        ContentType::AudioOgg => "audio/ogg"@,
        ContentType::FontOtf => "font/otf"@,
        ContentType::ApplicationOgg => "application/ogg"@,
        ContentType::AudioOggDuplicate => "audio/ogg"@,
        ContentType::ApplicationXHttpdPhp => "application/x-httpd-php"@,
        ContentType::ApplicationVndMsPowerpoint => "application/vnd.ms-powerpoint"@,
        ContentType::ApplicationVndOpenxmlformatsOfficedocumentPresentationmlPresentation => "application/vnd.openxmlformats-officedocument.presentationml.presentation"@,
        ContentType::ApplicationVndRar => "application/vnd.rar"@,
        ContentType::ApplicationRtf => "application/rtf"@,
        ContentType::ApplicationXSh => "application/x-sh"@,
        ContentType::ImageSvgXmlDuplicate => "image/svg+xml"@,
        ContentType::ApplicationXTar => "application/x-tar"@,
        ContentType::ImageTiffDuplicate => "image/tiff"@,
        ContentType::VideoMp2t => "video/mp2t"@,
        ContentType::ApplicationXShDuplicate => "application/x-sh"@,
        ContentType::FontTtf => "font/ttf"@,
        ContentType::TextPlainDuplicate => "text/plain"@,
        ContentType::ApplicationVndVisio => "application/vnd.visio"@,
        ContentType::AudioWav => "audio/wav"@,
        ContentType::AudioWebm => "audio/webm"@,
        ContentType::VideoWebm => "video/webm"@,
        ContentType::ImageWebpDuplicate => "image/webp"@,
        ContentType::FontWoff => "font/woff"@,
        ContentType::FontWoff2 => "font/woff2"@,
        ContentType::ApplicationXhtmlXml => "application/xhtml+xml"@,
        ContentType::ApplicationVndMsExcel => "application/vnd.ms-excel"@,
        ContentType::ApplicationVndOpenxmlformatsOfficedocumentSpreadsheetmlSheet => "application/vnd.openxmlformats-officedocument.spreadsheetml.sheet"@,
        ContentType::ApplicationXmlDuplicate => "application/xml"@,
        ContentType::ApplicationVndMozillaXulXml => "application/vnd.mozilla.xul+xml"@,
        ContentType::ApplicationZipDuplicate => "application/zip"@,
        ContentType::Video3gpp => "video/3gpp"@,
        ContentType::Audio3gpp => "audio/3gpp"@,
        ContentType::Video3gpp2 => "video/3gpp2"@,
        ContentType::Audio3gpp2 => "audio/3gpp2"@,
        ContentType::ApplicationX7zCompressed => "application/x-7z-compressed"@,
    }
}

/// Returns the wire string for a content type, for example
/// `application/json` for `ContentType::ApplicationJson`.
pub fn get_type(value: ContentType) -> (r: String)
    ensures
        r@ == spec_content_type(value),
{
    match value {
        ContentType::TextHtmlCharsetUtf8 => String::from_str("text/html; charset=utf-8"),
        ContentType::TextPlainCharsetUtf8 => String::from_str("text/plain; charset=utf-8"),
        ContentType::TextCssCharsetUtf8 => String::from_str("text/css; charset=utf-8"),
        ContentType::TextJavascriptCharsetUtf8 => String::from_str("text/javascript; charset=utf-8"),
        ContentType::ImageJpeg => String::from_str("image/jpeg"),
        ContentType::ImagePng => String::from_str("image/png"),
        ContentType::ImageGif => String::from_str("image/gif"),
        ContentType::ImageSvgXml => String::from_str("image/svg+xml"),
        ContentType::ImageWebp => String::from_str("image/webp"),
        ContentType::ImageBmp => String::from_str("image/bmp"),
        ContentType::ImageTiff => String::from_str("image/tiff"),
        ContentType::ApplicationJson => String::from_str("application/json"),
        ContentType::ApplicationXml => String::from_str("application/xml"),
        ContentType::ApplicationPdf => String::from_str("application/pdf"),
        ContentType::ApplicationZip => String::from_str("application/zip"),
        ContentType::ApplicationOctetStream => String::from_str("application/octet-stream"),
        ContentType::ApplicationXAbiword => String::from_str("application/x-abiword"),
        ContentType::ImageApng => String::from_str("image/apng"),
        ContentType::ApplicationXFreearc => String::from_str("application/x-freearc"),
        ContentType::VideoXMsvideo => String::from_str("video/x-msvideo"),
        ContentType::ApplicationVndAmazonEbook => String::from_str("application/vnd.amazon.ebook"),
        ContentType::ApplicationOctetStreamDuplicate => String::from_str("application/octet-stream"),
        ContentType::ImageBmpDuplicate => String::from_str("image/bmp"),
        ContentType::ApplicationXBzip => String::from_str("application/x-bzip"),
        ContentType::ApplicationXBzip2 => String::from_str("application/x-bzip2"),
        ContentType::ApplicationXCdf => String::from_str("application/x-cdf"),
        ContentType::ApplicationXCsh => String::from_str("application/x-csh"),
        ContentType::ApplicationVndOpenxmlformatsOfficedocumentWordprocessingmlDocument => String::from_str("application/vnd.openxmlformats-officedocument.wordprocessingml.document"),
        ContentType::ApplicationVndMsFontobject => String::from_str("application/vnd.ms-fontobject"),
        ContentType::ApplicationEpubZip => String::from_str("application/epub+zip"),
        ContentType::ApplicationGzip => String::from_str("application/gzip"),
        ContentType::ApplicationVndMicrosoftIcon => String::from_str("application/vnd.microsoft.icon"),
        ContentType::ApplicationJavaArchive => String::from_str("application/java-archive"),
        ContentType::ApplicationJsonDuplicate => String::from_str("application/json"),
        ContentType::ApplicationLdJson => String::from_str("application/ld+json"),
        ContentType::AudioMidi => String::from_str("audio/midi"),
        ContentType::AudioXMidi => String::from_str("audio/x-midi"),
        ContentType::TextJavascriptDuplicate => String::from_str("text/javascript"),
        ContentType::AudioMpeg => String::from_str("audio/mpeg"),
        ContentType::VideoMp4 => String::from_str("video/mp4"),
        ContentType::VideoMpeg => String::from_str("video/mpeg"),
        ContentType::ApplicationVndAppleInstallerXml => String::from_str("application/vnd.apple.installer+xml"),
        ContentType::ApplicationVndOasisOpendocumentPresentation => String::from_str("application/vnd.oasis.opendocument.presentation"),
        ContentType::ApplicationVndOasisOpendocumentSpreadsheet => String::from_str("application/vnd.oasis.opendocument.spreadsheet"),
        ContentType::ApplicationVndOasisOpendocumentText => String::from_str("application/vnd.oasis.opendocument.text"),
        ContentType::AudioOgg => String::from_str("audio/ogg"),
        ContentType::FontOtf => String::from_str("font/otf"),
        ContentType::ApplicationOgg => String::from_str("application/ogg"),
        ContentType::AudioOggDuplicate => String::from_str("audio/ogg"),
        ContentType::ApplicationXHttpdPhp => String::from_str("application/x-httpd-php"),
        ContentType::ApplicationVndMsPowerpoint => String::from_str("application/vnd.ms-powerpoint"),
        ContentType::ApplicationVndOpenxmlformatsOfficedocumentPresentationmlPresentation => String::from_str("application/vnd.openxmlformats-officedocument.presentationml.presentation"),
        ContentType::ApplicationVndRar => String::from_str("application/vnd.rar"),
        ContentType::ApplicationRtf => String::from_str("application/rtf"),
        ContentType::ApplicationXSh => String::from_str("application/x-sh"),
        ContentType::ImageSvgXmlDuplicate => String::from_str("image/svg+xml"),
        ContentType::ApplicationXTar => String::from_str("application/x-tar"),
        ContentType::ImageTiffDuplicate => String::from_str("image/tiff"),
        ContentType::VideoMp2t => String::from_str("video/mp2t"),
        ContentType::ApplicationXShDuplicate => String::from_str("application/x-sh"),
        ContentType::FontTtf => String::from_str("font/ttf"),
        ContentType::TextPlainDuplicate => String::from_str("text/plain"),
        ContentType::ApplicationVndVisio => String::from_str("application/vnd.visio"),
        ContentType::AudioWav => String::from_str("audio/wav"),
        ContentType::AudioWebm => String::from_str("audio/webm"),
        ContentType::VideoWebm => String::from_str("video/webm"),
        ContentType::ImageWebpDuplicate => String::from_str("image/webp"),
        ContentType::FontWoff => String::from_str("font/woff"),
        ContentType::FontWoff2 => String::from_str("font/woff2"),
        ContentType::ApplicationXhtmlXml => String::from_str("application/xhtml+xml"),
        ContentType::ApplicationVndMsExcel => String::from_str("application/vnd.ms-excel"),
        ContentType::ApplicationVndOpenxmlformatsOfficedocumentSpreadsheetmlSheet => String::from_str("application/vnd.openxmlformats-officedocument.spreadsheetml.sheet"),
        ContentType::ApplicationXmlDuplicate => String::from_str("application/xml"),
        ContentType::ApplicationVndMozillaXulXml => String::from_str("application/vnd.mozilla.xul+xml"),
        ContentType::ApplicationZipDuplicate => String::from_str("application/zip"),
        ContentType::Video3gpp => String::from_str("video/3gpp"),
        ContentType::Audio3gpp => String::from_str("audio/3gpp"),
        ContentType::Video3gpp2 => String::from_str("video/3gpp2"),
        ContentType::Audio3gpp2 => String::from_str("audio/3gpp2"),
        ContentType::ApplicationX7zCompressed => String::from_str("application/x-7z-compressed"),
    }
}

/// The content type a file-name extension denotes; `.` included,
/// unknown extensions defaulting to plain text.
pub open spec fn spec_ext_type(ext: Seq<char>) -> ContentType {
    if ext == ".html"@ {
        ContentType::TextHtmlCharsetUtf8
    } else if ext == ".txt"@ {
        ContentType::TextPlainCharsetUtf8
    } else if ext == ".css"@ {
        ContentType::TextCssCharsetUtf8
    } else if ext == ".js"@ {
        ContentType::TextJavascriptCharsetUtf8
    } else if ext == ".jpeg"@ || ext == ".jpg"@ {
        ContentType::ImageJpeg
    } else if ext == ".png"@ {
        ContentType::ImagePng
    } else if ext == ".gif"@ {
        ContentType::ImageGif
    } else if ext == ".svg"@ {
        ContentType::ImageSvgXml
    } else if ext == ".webp"@ {
        ContentType::ImageWebp
    } else if ext == ".bmp"@ {
        ContentType::ImageBmp
    } else if ext == ".tiff"@ {
        ContentType::ImageTiff
    } else if ext == ".json"@ {
        ContentType::ApplicationJson
    } else if ext == ".xml"@ {
        ContentType::ApplicationXml
    } else if ext == ".pdf"@ {
        ContentType::ApplicationPdf
    } else if ext == ".zip"@ {
        ContentType::ApplicationZip
    } else if ext == ".bin"@ {
        ContentType::ApplicationOctetStream
    } else if ext == ".abw"@ {
        ContentType::ApplicationXAbiword
    } else if ext == ".apng"@ {
        ContentType::ImageApng
    } else if ext == ".arc"@ {
        ContentType::ApplicationXFreearc
    } else if ext == ".avi"@ {
        ContentType::VideoXMsvideo
    } else if ext == ".azw"@ {
        ContentType::ApplicationVndAmazonEbook
    } else if ext == ".bz"@ {
        ContentType::ApplicationXBzip
    } else if ext == ".bz2"@ {
        ContentType::ApplicationXBzip2
    } else if ext == ".cda"@ {
        ContentType::ApplicationXCdf
    } else if ext == ".csh"@ {
        ContentType::ApplicationXCsh
    } else if ext == ".docx"@ {
        ContentType::ApplicationVndOpenxmlformatsOfficedocumentWordprocessingmlDocument
    } else if ext == ".eot"@ {
        ContentType::ApplicationVndMsFontobject
    } else if ext == ".epub"@ {
        ContentType::ApplicationEpubZip
    } else if ext == ".gz"@ {
        ContentType::ApplicationGzip
    } else if ext == ".ico"@ {
        ContentType::ApplicationVndMicrosoftIcon
    } else if ext == ".jar"@ {
        ContentType::ApplicationJavaArchive
    } else if ext == ".midi"@ {
        ContentType::AudioMidi
    } else if ext == ".mjs"@ {
        ContentType::TextJavascriptDuplicate
    } else if ext == ".mp3"@ {
        ContentType::AudioMpeg
    } else if ext == ".mp4"@ {
        ContentType::VideoMp4
    } else if ext == ".mpeg"@ {
        ContentType::VideoMpeg
    } else if ext == ".mpkg"@ {
        ContentType::ApplicationVndAppleInstallerXml
    } else if ext == ".odp"@ {
        ContentType::ApplicationVndOasisOpendocumentPresentation
    } else if ext == ".ods"@ {
        ContentType::ApplicationVndOasisOpendocumentSpreadsheet
    } else if ext == ".odt"@ {
        ContentType::ApplicationVndOasisOpendocumentText
    } else if ext == ".oga"@ {
        ContentType::AudioOgg
    } else if ext == ".otf"@ {
        ContentType::FontOtf
    } else if ext == ".ogx"@ {
        ContentType::ApplicationOgg
    } else if ext == ".php"@ {
        ContentType::ApplicationXHttpdPhp
    } else if ext == ".pptx"@ {
        ContentType::ApplicationVndOpenxmlformatsOfficedocumentPresentationmlPresentation
    } else if ext == ".rar"@ {
        ContentType::ApplicationVndRar
    } else if ext == ".rtf"@ {
        ContentType::ApplicationRtf
    } else if ext == ".sh"@ {
        ContentType::ApplicationXSh
    } else if ext == ".tar"@ {
        ContentType::ApplicationXTar
    } else if ext == ".tif"@ {
        ContentType::ImageTiffDuplicate
    } else if ext == ".ts"@ {
        ContentType::VideoMp2t
    } else if ext == ".ttf"@ {
        ContentType::FontTtf
    } else if ext == ".wav"@ {
        ContentType::AudioWav
    } else if ext == ".weba"@ {
        ContentType::AudioWebm
    } else if ext == ".webm"@ {
        ContentType::VideoWebm
    } else if ext == ".woff"@ {
        ContentType::FontWoff
    } else if ext == ".woff2"@ {
        ContentType::FontWoff2
    } else if ext == ".xhtml"@ {
        ContentType::ApplicationXhtmlXml
    } else if ext == ".xls"@ {
        ContentType::ApplicationVndMsExcel
    } else if ext == ".xlsx"@ {
        ContentType::ApplicationVndOpenxmlformatsOfficedocumentSpreadsheetmlSheet
    } else if ext == ".xul"@ {
        ContentType::ApplicationVndMozillaXulXml
    } else if ext == ".3gp"@ {
        ContentType::Video3gpp
    } else if ext == ".3g2"@ {
        ContentType::Video3gpp2
    } else if ext == ".7z"@ {
        ContentType::ApplicationX7zCompressed
    } else {
        ContentType::TextPlainCharsetUtf8
    }
}

/// The content type of a file name: its extension runs from the first `.`
/// to the end of the name.
pub open spec fn spec_parse_file_name(s: Seq<char>) -> ContentType {
    spec_ext_type(s.skip(scan_char(s, 0, '.')))
}

impl ContentType {
    /// Classifies a file name by its extension, which starts at the first
    /// `.` of the name; the name must contain one.
    pub fn parse_file_name(value: &str) -> (r: ContentType)
        requires
            scan_char(value@, 0, '.') < value@.len(),
        ensures
            r == spec_parse_file_name(value@),
    {
        let n = value.unicode_len();
        let dot = scan_char_str(value, 0, '.');
        let ext = value.substring_char(dot, n);
        proof {
            assert(value@.subrange(dot as int, n as int) =~= value@.skip(
                scan_char(value@, 0, '.'),
            ));
        }
        if str_eq(ext, ".html") {
            ContentType::TextHtmlCharsetUtf8
        } else if str_eq(ext, ".txt") {
            ContentType::TextPlainCharsetUtf8
        } else if str_eq(ext, ".css") {
            ContentType::TextCssCharsetUtf8
        } else if str_eq(ext, ".js") {
            ContentType::TextJavascriptCharsetUtf8
        } else if str_eq(ext, ".jpeg") || str_eq(ext, ".jpg") {
            ContentType::ImageJpeg
        } else if str_eq(ext, ".png") {
            ContentType::ImagePng
        } else if str_eq(ext, ".gif") {
            ContentType::ImageGif
        } else if str_eq(ext, ".svg") {
            ContentType::ImageSvgXml
        } else if str_eq(ext, ".webp") {
            ContentType::ImageWebp
        } else if str_eq(ext, ".bmp") {
            ContentType::ImageBmp
        } else if str_eq(ext, ".tiff") {
            ContentType::ImageTiff
        } else if str_eq(ext, ".json") {
            ContentType::ApplicationJson
        } else if str_eq(ext, ".xml") {
            ContentType::ApplicationXml
        } else if str_eq(ext, ".pdf") {
            ContentType::ApplicationPdf
        } else if str_eq(ext, ".zip") {
            ContentType::ApplicationZip
        } else if str_eq(ext, ".bin") {
            ContentType::ApplicationOctetStream
        } else if str_eq(ext, ".abw") {
            ContentType::ApplicationXAbiword
        } else if str_eq(ext, ".apng") {
            ContentType::ImageApng
        } else if str_eq(ext, ".arc") {
            ContentType::ApplicationXFreearc
        } else if str_eq(ext, ".avi") {
            ContentType::VideoXMsvideo
        } else if str_eq(ext, ".azw") {
            ContentType::ApplicationVndAmazonEbook
        } else if str_eq(ext, ".bz") {
            ContentType::ApplicationXBzip
        } else if str_eq(ext, ".bz2") {
            ContentType::ApplicationXBzip2
        } else if str_eq(ext, ".cda") {
            ContentType::ApplicationXCdf
        } else if str_eq(ext, ".csh") {
            ContentType::ApplicationXCsh
        } else if str_eq(ext, ".docx") {
            ContentType::ApplicationVndOpenxmlformatsOfficedocumentWordprocessingmlDocument
        } else if str_eq(ext, ".eot") {
            ContentType::ApplicationVndMsFontobject
        } else if str_eq(ext, ".epub") {
            ContentType::ApplicationEpubZip
        } else if str_eq(ext, ".gz") {
            ContentType::ApplicationGzip
        } else if str_eq(ext, ".ico") {
            ContentType::ApplicationVndMicrosoftIcon
        } else if str_eq(ext, ".jar") {
            ContentType::ApplicationJavaArchive
        } else if str_eq(ext, ".midi") {
            ContentType::AudioMidi
        } else if str_eq(ext, ".mjs") {
            ContentType::TextJavascriptDuplicate
        } else if str_eq(ext, ".mp3") {
            ContentType::AudioMpeg
        } else if str_eq(ext, ".mp4") {
            ContentType::VideoMp4
        } else if str_eq(ext, ".mpeg") {
            ContentType::VideoMpeg
        } else if str_eq(ext, ".mpkg") {
            ContentType::ApplicationVndAppleInstallerXml
        } else if str_eq(ext, ".odp") {
            ContentType::ApplicationVndOasisOpendocumentPresentation
        } else if str_eq(ext, ".ods") {
            ContentType::ApplicationVndOasisOpendocumentSpreadsheet
        } else if str_eq(ext, ".odt") {
            ContentType::ApplicationVndOasisOpendocumentText
        } else if str_eq(ext, ".oga") {
            ContentType::AudioOgg
        } else if str_eq(ext, ".otf") {
            ContentType::FontOtf
        } else if str_eq(ext, ".ogx") {
            ContentType::ApplicationOgg
        } else if str_eq(ext, ".php") {
            ContentType::ApplicationXHttpdPhp
        } else if str_eq(ext, ".pptx") {
            ContentType::ApplicationVndOpenxmlformatsOfficedocumentPresentationmlPresentation
        } else if str_eq(ext, ".rar") {
            ContentType::ApplicationVndRar
        } else if str_eq(ext, ".rtf") {
            ContentType::ApplicationRtf
        } else if str_eq(ext, ".sh") {
            ContentType::ApplicationXSh
        } else if str_eq(ext, ".tar") {
            ContentType::ApplicationXTar
        } else if str_eq(ext, ".tif") {
            ContentType::ImageTiffDuplicate
        } else if str_eq(ext, ".ts") {
            ContentType::VideoMp2t
        } else if str_eq(ext, ".ttf") {
            ContentType::FontTtf
        } else if str_eq(ext, ".wav") {
            ContentType::AudioWav
        } else if str_eq(ext, ".weba") {
            ContentType::AudioWebm
        } else if str_eq(ext, ".webm") {
            ContentType::VideoWebm
        } else if str_eq(ext, ".woff") {
            ContentType::FontWoff
        } else if str_eq(ext, ".woff2") {
            ContentType::FontWoff2
        } else if str_eq(ext, ".xhtml") {
            ContentType::ApplicationXhtmlXml
        } else if str_eq(ext, ".xls") {
            ContentType::ApplicationVndMsExcel
        } else if str_eq(ext, ".xlsx") {
            ContentType::ApplicationVndOpenxmlformatsOfficedocumentSpreadsheetmlSheet
        } else if str_eq(ext, ".xul") {
            ContentType::ApplicationVndMozillaXulXml
        } else if str_eq(ext, ".3gp") {
            ContentType::Video3gpp
        } else if str_eq(ext, ".3g2") {
            ContentType::Video3gpp2
        } else if str_eq(ext, ".7z") {
            ContentType::ApplicationX7zCompressed
        } else {
            ContentType::TextPlainCharsetUtf8
        }
    }
}

} // verus!
