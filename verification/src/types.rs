//! The catalog of well-known uniform data type tags, an open escape
//! variant for tags outside the catalog, and the bidirectional mapping to
//! the wire strings the native catalog uses.
//!
//! Tags compare equal on their wire strings, not on their variant names:
//! two `Other` tags built from separately allocated strings spelling the
//! same wire string are equal, which matters because equivalent custom
//! types may be constructed independently.

use vstd::prelude::*;
use vstd::std_specs::cmp::PartialEqSpec;
use vstd::string::StringSliceAdditionalSpecFns;
use vstd::utf8::encode_utf8;
use crate::error::UdmfError;
use crate::marshal::{c_string_bytes, has_nul, str_eq};

verus! {

/// Uniform data type tags: one variant per well-known catalog entry, plus
/// `Other` carrying the exact wire string of any tag outside the closed
/// set (forward compatibility with catalog additions and caller-defined
/// custom types).
#[derive(Clone, Debug)]
pub enum UniformDataType {
    Entity,
    Object,
    CompositeObject,
    Text,
    PlainText,
    Html,
    Hyperlink,
    Xml,
    SourceCode,
    Script,
    ShellScript,
    CshScript,
    PerlScript,
    PhpScript,
    PythonScript,
    RubyScript,
    TypeScript,
    JavaScript,
    CHeader,
    CSource,
    CPlusPlusHeader,
    CPlusPlusSource,
    JavaSource,
    Ebook,
    Epub,
    Azw,
    Azw3,
    Kfx,
    Mobi,
    Media,
    Image,
    Jpeg,
    Png,
    RawImage,
    Tiff,
    Bmp,
    Ico,
    PhotoshopImage,
    AiImage,
    WordDoc,
    Excel,
    Ppt,
    Pdf,
    Postscript,
    EncapsulatedPostscript,
    Video,
    Avi,
    Mpeg,
    Mpeg4,
    Video3gpp,
    Video3gpp2,
    WindowsMediaWm,
    WindowsMediaWmv,
    WindowsMediaWmp,
    Audio,
    Aac,
    Aiff,
    Alac,
    Flac,
    Mp3,
    Ogg,
    Pcm,
    WindowsMediaWma,
    WaveformAudio,
    WindowsMediaWmx,
    WindowsMediaWvx,
    WindowsMediaWax,
    GeneralFile,
    Directory,
    Folder,
    Symlink,
    Archive,
    Bz2Archive,
    DiskImage,
    TarArchive,
    ZipArchive,
    JavaArchive,
    GnuTarArchive,
    GnuZipArchive,
    GnuZipTarArchive,
    Calendar,
    Contact,
    Database,
    Message,
    Vcard,
    Navigation,
    Location,
    OpenHarmonyForm,
    OpenHarmonyAppItem,
    OpenHarmonyPixelMap,
    OpenHarmonyAtomicService,
    OpenHarmonyPackage,
    OpenHarmonyHap,
    Smil,
    Markdown,
    Fax,
    JfxFax,
    EfxFax,
    XbitmapImage,
    TgaImage,
    SgiImage,
    OpenexrImage,
    FlashpixImage,
    Realmedia,
    AuAudio,
    AifcAudio,
    Sd2Audio,
    Realaudio,
    Openxml,
    WordprocessingmlDocument,
    SpreadsheetmlSheet,
    PresentationmlPresentation,
    Opendocument,
    OpendocumentText,
    OpendocumentSpreadsheet,
    OpendocumentPresentation,
    OpendocumentGraphics,
    OpendocumentFormula,
    StuffitArchive,
    Vcs,
    Ics,
    Executable,
    PortableExecutable,
    SunJavaClass,
    Font,
    TruetypeFont,
    TruetypeCollectionFont,
    OpentypeFont,
    PostscriptFont,
    PostscriptPfbFont,
    PostscriptPfaFont,
    OpenHarmonyHdoc,
    OpenHarmonyHinote,
    OpenHarmonyStyledString,
    OpenHarmonyWant,
    GeneralFileUri,
    GeneralContentForm,
    /// Any other tag, carried as its exact wire string.
    Other(String),
}

impl UniformDataType {
    /// The wire string of this tag, as the native catalog spells it; for
    /// `Other`, the carried string verbatim.
    pub open spec fn wire_spec(self) -> Seq<char> {
        match self {
            UniformDataType::Entity => "general.entity"@,
            UniformDataType::Object => "general.object"@,
            UniformDataType::CompositeObject => "general.composite-object"@,
            UniformDataType::Text => "general.text"@,
            UniformDataType::PlainText => "general.plain-text"@,
            UniformDataType::Html => "general.html"@,
            UniformDataType::Hyperlink => "general.hyperlink"@,
            UniformDataType::Xml => "general.xml"@,
            UniformDataType::SourceCode => "general.source-code"@,
            UniformDataType::Script => "general.script"@,
            UniformDataType::ShellScript => "general.shell-script"@,
            UniformDataType::CshScript => "general.csh-script"@,
            UniformDataType::PerlScript => "general.perl-script"@,
            UniformDataType::PhpScript => "general.php-script"@,
            UniformDataType::PythonScript => "general.python-script"@,
            UniformDataType::RubyScript => "general.ruby-script"@,
            UniformDataType::TypeScript => "general.type-script"@,
            UniformDataType::JavaScript => "general.java-script"@,
            UniformDataType::CHeader => "general.c-header"@,
            UniformDataType::CSource => "general.c-source"@,
            UniformDataType::CPlusPlusHeader => "general.c-plus-plus-header"@,
            UniformDataType::CPlusPlusSource => "general.c-plus-plus-source"@,
            UniformDataType::JavaSource => "general.java-source"@,
            UniformDataType::Ebook => "general.ebook"@,
            UniformDataType::Epub => "general.epub"@,
            UniformDataType::Azw => "com.amazon.azw"@,
            UniformDataType::Azw3 => "com.amazon.azw3"@,
            UniformDataType::Kfx => "com.amazon.kfx"@,
            UniformDataType::Mobi => "com.amazon.mobi"@,
            UniformDataType::Media => "general.media"@,
            UniformDataType::Image => "general.image"@,
            UniformDataType::Jpeg => "general.jpeg"@,
            UniformDataType::Png => "general.png"@,
            UniformDataType::RawImage => "general.raw-image"@,
            UniformDataType::Tiff => "general.tiff"@,
            UniformDataType::Bmp => "com.microsoft.bmp"@,
            UniformDataType::Ico => "com.microsoft.ico"@,
            UniformDataType::PhotoshopImage => "com.adobe.photoshop-image"@,
            UniformDataType::AiImage => "com.adobe.illustrator.ai-image"@,
            UniformDataType::WordDoc => "com.microsoft.word.doc"@,
            UniformDataType::Excel => "com.microsoft.excel.xls"@,
            UniformDataType::Ppt => "com.microsoft.powerpoint.ppt"@,
            UniformDataType::Pdf => "com.adobe.pdf"@,
            UniformDataType::Postscript => "com.adobe.postscript"@,
            UniformDataType::EncapsulatedPostscript => "com.adobe.encapsulated-postscript"@,
            UniformDataType::Video => "general.video"@,
            UniformDataType::Avi => "general.avi"@,
            UniformDataType::Mpeg => "general.mpeg"@,
            UniformDataType::Mpeg4 => "general.mpeg-4"@,
            UniformDataType::Video3gpp => "general.3gpp"@,
            UniformDataType::Video3gpp2 => "general.3gpp2"@,
            UniformDataType::WindowsMediaWm => "com.microsoft.windows-media-wm"@,
            UniformDataType::WindowsMediaWmv => "com.microsoft.windows-media-wmv"@,
            UniformDataType::WindowsMediaWmp => "com.microsoft.windows-media-wmp"@,
            UniformDataType::Audio => "general.audio"@,
            UniformDataType::Aac => "general.aac"@,
            UniformDataType::Aiff => "general.aiff"@,
            UniformDataType::Alac => "general.alac"@,
            UniformDataType::Flac => "general.flac"@,
            UniformDataType::Mp3 => "general.mp3"@,
            UniformDataType::Ogg => "general.ogg"@,
            UniformDataType::Pcm => "general.pcm"@,
            UniformDataType::WindowsMediaWma => "com.microsoft.windows-media-wma"@,
            UniformDataType::WaveformAudio => "com.microsoft.waveform-audio"@,
            UniformDataType::WindowsMediaWmx => "com.microsoft.windows-media-wmx"@,
            UniformDataType::WindowsMediaWvx => "com.microsoft.windows-media-wvx"@,
            UniformDataType::WindowsMediaWax => "com.microsoft.windows-media-wax"@,
            UniformDataType::GeneralFile => "general.file"@,
            UniformDataType::Directory => "general.directory"@,
            UniformDataType::Folder => "general.folder"@,
            UniformDataType::Symlink => "general.symlink"@,
            UniformDataType::Archive => "general.archive"@,
            UniformDataType::Bz2Archive => "general.bz2-archive"@,
            UniformDataType::DiskImage => "general.disk-image"@,
            UniformDataType::TarArchive => "general.tar-archive"@,
            UniformDataType::ZipArchive => "general.zip-archive"@,
            UniformDataType::JavaArchive => "com.sun.java-archive"@,
            UniformDataType::GnuTarArchive => "org.gnu.gnu-tar-archive"@,
            UniformDataType::GnuZipArchive => "org.gnu.gnu-zip-archive"@,
            UniformDataType::GnuZipTarArchive => "org.gnu.gnu-zip-tar-archive"@,
            UniformDataType::Calendar => "general.calendar"@,
            UniformDataType::Contact => "general.contact"@,
            UniformDataType::Database => "general.database"@,
            UniformDataType::Message => "general.message"@,
            UniformDataType::Vcard => "general.vcard"@,
            UniformDataType::Navigation => "general.navigation"@,
            UniformDataType::Location => "general.location"@,
            UniformDataType::OpenHarmonyForm => "openharmony.form"@,
            UniformDataType::OpenHarmonyAppItem => "openharmony.app-item"@,
            UniformDataType::OpenHarmonyPixelMap => "openharmony.pixel-map"@,
            UniformDataType::OpenHarmonyAtomicService => "openharmony.atomic-service"@,
            UniformDataType::OpenHarmonyPackage => "openharmony.package"@,
            UniformDataType::OpenHarmonyHap => "openharmony.hap"@,
            UniformDataType::Smil => "com.real.smil"@,
            UniformDataType::Markdown => "general.markdown"@,
            UniformDataType::Fax => "general.fax"@,
            UniformDataType::JfxFax => "com.j2.jfx-fax"@,
            UniformDataType::EfxFax => "com.js.efx-fax"@,
            UniformDataType::XbitmapImage => "general.xbitmap-image"@,
            UniformDataType::TgaImage => "com.truevision.tga-image"@,
            UniformDataType::SgiImage => "com.sgi.sgi-image"@,
            UniformDataType::OpenexrImage => "com.ilm.openexr-image"@,
            UniformDataType::FlashpixImage => "com.kodak.flashpix.image"@,
            UniformDataType::Realmedia => "com.real.realmedia"@,
            UniformDataType::AuAudio => "general.au-audio"@,
            UniformDataType::AifcAudio => "general.aifc-audio"@,
            UniformDataType::Sd2Audio => "com.digidesign.sd2-audio"@,
            UniformDataType::Realaudio => "com.real.realaudio"@,
            UniformDataType::Openxml => "org.openxmlformats.openxml"@,
            UniformDataType::WordprocessingmlDocument => "org.openxmlformats.wordprocessingml.document"@,
            UniformDataType::SpreadsheetmlSheet => "org.openxmlformats.spreadsheetml.sheet"@,
            UniformDataType::PresentationmlPresentation => "org.openxmlformats.presentationml.presentation"@,
            UniformDataType::Opendocument => "org.oasis.opendocument"@,
            UniformDataType::OpendocumentText => "org.oasis.opendocument.text"@,
            UniformDataType::OpendocumentSpreadsheet => "org.oasis.opendocument.spreadsheet"@,
            UniformDataType::OpendocumentPresentation => "org.oasis.opendocument.presentation"@,
            UniformDataType::OpendocumentGraphics => "org.oasis.opendocument.graphics"@,
            UniformDataType::OpendocumentFormula => "org.oasis.opendocument.formula"@,
            UniformDataType::StuffitArchive => "com.allume.stuffit-archive"@,
            UniformDataType::Vcs => "general.vcs"@,
            UniformDataType::Ics => "general.ics"@,
            UniformDataType::Executable => "general.executable"@,
            UniformDataType::PortableExecutable => "com.microsoft.portable-executable"@,
            UniformDataType::SunJavaClass => "com.sun.java-class"@,
            UniformDataType::Font => "general.font"@,
            UniformDataType::TruetypeFont => "general.truetype-font"@,
            UniformDataType::TruetypeCollectionFont => "general.truetype-collection-font"@,
            UniformDataType::OpentypeFont => "general.opentype-font"@,
            UniformDataType::PostscriptFont => "com.adobe.postscript-font"@,
            UniformDataType::PostscriptPfbFont => "com.adobe.postscript-pfb-font"@,
            UniformDataType::PostscriptPfaFont => "com.adobe.postscript-pfa-font"@,
            UniformDataType::OpenHarmonyHdoc => "openharmony.hdoc"@,
            UniformDataType::OpenHarmonyHinote => "openharmony.hinote"@,
            UniformDataType::OpenHarmonyStyledString => "openharmony.styled-string"@,
            UniformDataType::OpenHarmonyWant => "openharmony.want"@,
            UniformDataType::GeneralFileUri => "general.file-uri"@,
            UniformDataType::GeneralContentForm => "general.content-form"@,
            UniformDataType::Other(s) => s@,
        }
    }

    /// Whether this tag is one of the well-known catalog entries.
    pub open spec fn is_well_known(self) -> bool {
        !(self is Other)
    }

    /// The well-known tag a wire string denotes, if any. The matching
    /// order is fixed; no two well-known wire strings collide.
    pub open spec fn spec_known_of_wire(s: Seq<char>) -> Option<UniformDataType> {
        if s == "general.entity"@ {
            Some(UniformDataType::Entity)
        } else if s == "general.object"@ {
            Some(UniformDataType::Object)
        } else if s == "general.composite-object"@ {
            Some(UniformDataType::CompositeObject)
        } else if s == "general.text"@ {
            Some(UniformDataType::Text)
        } else if s == "general.plain-text"@ {
            Some(UniformDataType::PlainText)
        } else if s == "general.html"@ {
            Some(UniformDataType::Html)
        } else if s == "general.hyperlink"@ {
            Some(UniformDataType::Hyperlink)
        } else if s == "general.xml"@ {
            Some(UniformDataType::Xml)
        } else if s == "general.source-code"@ {
            Some(UniformDataType::SourceCode)
        } else if s == "general.script"@ {
            Some(UniformDataType::Script)
        } else if s == "general.shell-script"@ {
            Some(UniformDataType::ShellScript)
        } else if s == "general.csh-script"@ {
            Some(UniformDataType::CshScript)
        } else if s == "general.perl-script"@ {
            Some(UniformDataType::PerlScript)
        } else if s == "general.php-script"@ {
            Some(UniformDataType::PhpScript)
        } else if s == "general.python-script"@ {
            Some(UniformDataType::PythonScript)
        } else if s == "general.ruby-script"@ {
            Some(UniformDataType::RubyScript)
        } else if s == "general.type-script"@ {
            Some(UniformDataType::TypeScript)
        } else if s == "general.java-script"@ {
            Some(UniformDataType::JavaScript)
        } else if s == "general.c-header"@ {
            Some(UniformDataType::CHeader)
        } else if s == "general.c-source"@ {
            Some(UniformDataType::CSource)
        } else if s == "general.c-plus-plus-header"@ {
            Some(UniformDataType::CPlusPlusHeader)
        } else if s == "general.c-plus-plus-source"@ {
            Some(UniformDataType::CPlusPlusSource)
        } else if s == "general.java-source"@ {
            Some(UniformDataType::JavaSource)
        } else if s == "general.ebook"@ {
            Some(UniformDataType::Ebook)
        } else if s == "general.epub"@ {
            Some(UniformDataType::Epub)
        } else if s == "com.amazon.azw"@ {
            Some(UniformDataType::Azw)
        } else if s == "com.amazon.azw3"@ {
            Some(UniformDataType::Azw3)
        } else if s == "com.amazon.kfx"@ {
            Some(UniformDataType::Kfx)
        } else if s == "com.amazon.mobi"@ {
            Some(UniformDataType::Mobi)
        } else if s == "general.media"@ {
            Some(UniformDataType::Media)
        } else if s == "general.image"@ {
            Some(UniformDataType::Image)
        } else if s == "general.jpeg"@ {
            Some(UniformDataType::Jpeg)
        } else if s == "general.png"@ {
            Some(UniformDataType::Png)
        } else if s == "general.raw-image"@ {
            Some(UniformDataType::RawImage)
        } else if s == "general.tiff"@ {
            Some(UniformDataType::Tiff)
        } else if s == "com.microsoft.bmp"@ {
            Some(UniformDataType::Bmp)
        } else if s == "com.microsoft.ico"@ {
            Some(UniformDataType::Ico)
        } else if s == "com.adobe.photoshop-image"@ {
            Some(UniformDataType::PhotoshopImage)
        } else if s == "com.adobe.illustrator.ai-image"@ {
            Some(UniformDataType::AiImage)
        } else if s == "com.microsoft.word.doc"@ {
            Some(UniformDataType::WordDoc)
        } else if s == "com.microsoft.excel.xls"@ {
            Some(UniformDataType::Excel)
        } else if s == "com.microsoft.powerpoint.ppt"@ {
            Some(UniformDataType::Ppt)
        } else if s == "com.adobe.pdf"@ {
            Some(UniformDataType::Pdf)
        } else if s == "com.adobe.postscript"@ {
            Some(UniformDataType::Postscript)
        } else if s == "com.adobe.encapsulated-postscript"@ {
            Some(UniformDataType::EncapsulatedPostscript)
        } else if s == "general.video"@ {
            Some(UniformDataType::Video)
        } else if s == "general.avi"@ {
            Some(UniformDataType::Avi)
        } else if s == "general.mpeg"@ {
            Some(UniformDataType::Mpeg)
        } else if s == "general.mpeg-4"@ {
            Some(UniformDataType::Mpeg4)
        } else if s == "general.3gpp"@ {
            Some(UniformDataType::Video3gpp)
        } else if s == "general.3gpp2"@ {
            Some(UniformDataType::Video3gpp2)
        } else if s == "com.microsoft.windows-media-wm"@ {
            Some(UniformDataType::WindowsMediaWm)
        } else if s == "com.microsoft.windows-media-wmv"@ {
            Some(UniformDataType::WindowsMediaWmv)
        } else if s == "com.microsoft.windows-media-wmp"@ {
            Some(UniformDataType::WindowsMediaWmp)
        } else if s == "general.audio"@ {
            Some(UniformDataType::Audio)
        } else if s == "general.aac"@ {
            Some(UniformDataType::Aac)
        } else if s == "general.aiff"@ {
            Some(UniformDataType::Aiff)
        } else if s == "general.alac"@ {
            Some(UniformDataType::Alac)
        } else if s == "general.flac"@ {
            Some(UniformDataType::Flac)
        } else if s == "general.mp3"@ {
            Some(UniformDataType::Mp3)
        } else if s == "general.ogg"@ {
            Some(UniformDataType::Ogg)
        } else if s == "general.pcm"@ {
            Some(UniformDataType::Pcm)
        } else if s == "com.microsoft.windows-media-wma"@ {
            Some(UniformDataType::WindowsMediaWma)
        } else if s == "com.microsoft.waveform-audio"@ {
            Some(UniformDataType::WaveformAudio)
        } else if s == "com.microsoft.windows-media-wmx"@ {
            Some(UniformDataType::WindowsMediaWmx)
        } else if s == "com.microsoft.windows-media-wvx"@ {
            Some(UniformDataType::WindowsMediaWvx)
        } else if s == "com.microsoft.windows-media-wax"@ {
            Some(UniformDataType::WindowsMediaWax)
        } else if s == "general.file"@ {
            Some(UniformDataType::GeneralFile)
        } else if s == "general.directory"@ {
            Some(UniformDataType::Directory)
        } else if s == "general.folder"@ {
            Some(UniformDataType::Folder)
        } else if s == "general.symlink"@ {
            Some(UniformDataType::Symlink)
        } else if s == "general.archive"@ {
            Some(UniformDataType::Archive)
        } else if s == "general.bz2-archive"@ {
            Some(UniformDataType::Bz2Archive)
        } else if s == "general.disk-image"@ {
            Some(UniformDataType::DiskImage)
        } else if s == "general.tar-archive"@ {
            Some(UniformDataType::TarArchive)
        } else if s == "general.zip-archive"@ {
            Some(UniformDataType::ZipArchive)
        } else if s == "com.sun.java-archive"@ {
            Some(UniformDataType::JavaArchive)
        } else if s == "org.gnu.gnu-tar-archive"@ {
            Some(UniformDataType::GnuTarArchive)
        } else if s == "org.gnu.gnu-zip-archive"@ {
            Some(UniformDataType::GnuZipArchive)
        } else if s == "org.gnu.gnu-zip-tar-archive"@ {
            Some(UniformDataType::GnuZipTarArchive)
        } else if s == "general.calendar"@ {
            Some(UniformDataType::Calendar)
        } else if s == "general.contact"@ {
            Some(UniformDataType::Contact)
        } else if s == "general.database"@ {
            Some(UniformDataType::Database)
        } else if s == "general.message"@ {
            Some(UniformDataType::Message)
        } else if s == "general.vcard"@ {
            Some(UniformDataType::Vcard)
        } else if s == "general.navigation"@ {
            Some(UniformDataType::Navigation)
        } else if s == "general.location"@ {
            Some(UniformDataType::Location)
        } else if s == "openharmony.form"@ {
            Some(UniformDataType::OpenHarmonyForm)
        } else if s == "openharmony.app-item"@ {
            Some(UniformDataType::OpenHarmonyAppItem)
        } else if s == "openharmony.pixel-map"@ {
            Some(UniformDataType::OpenHarmonyPixelMap)
        } else if s == "openharmony.atomic-service"@ {
            Some(UniformDataType::OpenHarmonyAtomicService)
        } else if s == "openharmony.package"@ {
            Some(UniformDataType::OpenHarmonyPackage)
        } else if s == "openharmony.hap"@ {
            Some(UniformDataType::OpenHarmonyHap)
        } else if s == "com.real.smil"@ {
            Some(UniformDataType::Smil)
        } else if s == "general.markdown"@ {
            Some(UniformDataType::Markdown)
        } else if s == "general.fax"@ {
            Some(UniformDataType::Fax)
        } else if s == "com.j2.jfx-fax"@ {
            Some(UniformDataType::JfxFax)
        } else if s == "com.js.efx-fax"@ {
            Some(UniformDataType::EfxFax)
        } else if s == "general.xbitmap-image"@ {
            Some(UniformDataType::XbitmapImage)
        } else if s == "com.truevision.tga-image"@ {
            Some(UniformDataType::TgaImage)
        } else if s == "com.sgi.sgi-image"@ {
            Some(UniformDataType::SgiImage)
        } else if s == "com.ilm.openexr-image"@ {
            Some(UniformDataType::OpenexrImage)
        } else if s == "com.kodak.flashpix.image"@ {
            Some(UniformDataType::FlashpixImage)
        } else if s == "com.real.realmedia"@ {
            Some(UniformDataType::Realmedia)
        } else if s == "general.au-audio"@ {
            Some(UniformDataType::AuAudio)
        } else if s == "general.aifc-audio"@ {
            Some(UniformDataType::AifcAudio)
        } else if s == "com.digidesign.sd2-audio"@ {
            Some(UniformDataType::Sd2Audio)
        } else if s == "com.real.realaudio"@ {
            Some(UniformDataType::Realaudio)
        } else if s == "org.openxmlformats.openxml"@ {
            Some(UniformDataType::Openxml)
        } else if s == "org.openxmlformats.wordprocessingml.document"@ {
            Some(UniformDataType::WordprocessingmlDocument)
        } else if s == "org.openxmlformats.spreadsheetml.sheet"@ {
            Some(UniformDataType::SpreadsheetmlSheet)
        } else if s == "org.openxmlformats.presentationml.presentation"@ {
            Some(UniformDataType::PresentationmlPresentation)
        } else if s == "org.oasis.opendocument"@ {
            Some(UniformDataType::Opendocument)
        } else if s == "org.oasis.opendocument.text"@ {
            Some(UniformDataType::OpendocumentText)
        } else if s == "org.oasis.opendocument.spreadsheet"@ {
            Some(UniformDataType::OpendocumentSpreadsheet)
        } else if s == "org.oasis.opendocument.presentation"@ {
            Some(UniformDataType::OpendocumentPresentation)
        } else if s == "org.oasis.opendocument.graphics"@ {
            Some(UniformDataType::OpendocumentGraphics)
        } else if s == "org.oasis.opendocument.formula"@ {
            Some(UniformDataType::OpendocumentFormula)
        } else if s == "com.allume.stuffit-archive"@ {
            Some(UniformDataType::StuffitArchive)
        } else if s == "general.vcs"@ {
            Some(UniformDataType::Vcs)
        } else if s == "general.ics"@ {
            Some(UniformDataType::Ics)
        } else if s == "general.executable"@ {
            Some(UniformDataType::Executable)
        } else if s == "com.microsoft.portable-executable"@ {
            Some(UniformDataType::PortableExecutable)
        } else if s == "com.sun.java-class"@ {
            Some(UniformDataType::SunJavaClass)
        } else if s == "general.font"@ {
            Some(UniformDataType::Font)
        } else if s == "general.truetype-font"@ {
            Some(UniformDataType::TruetypeFont)
        } else if s == "general.truetype-collection-font"@ {
            Some(UniformDataType::TruetypeCollectionFont)
        } else if s == "general.opentype-font"@ {
            Some(UniformDataType::OpentypeFont)
        } else if s == "com.adobe.postscript-font"@ {
            Some(UniformDataType::PostscriptFont)
        } else if s == "com.adobe.postscript-pfb-font"@ {
            Some(UniformDataType::PostscriptPfbFont)
        } else if s == "com.adobe.postscript-pfa-font"@ {
            Some(UniformDataType::PostscriptPfaFont)
        } else if s == "openharmony.hdoc"@ {
            Some(UniformDataType::OpenHarmonyHdoc)
        } else if s == "openharmony.hinote"@ {
            Some(UniformDataType::OpenHarmonyHinote)
        } else if s == "openharmony.styled-string"@ {
            Some(UniformDataType::OpenHarmonyStyledString)
        } else if s == "openharmony.want"@ {
            Some(UniformDataType::OpenHarmonyWant)
        } else if s == "general.file-uri"@ {
            Some(UniformDataType::GeneralFileUri)
        } else if s == "general.content-form"@ {
            Some(UniformDataType::GeneralContentForm)
        } else {
            None
        }
    }

    /// The wire string of this tag.
    pub fn as_wire_str(&self) -> (r: &str)
        ensures
            r@ == self.wire_spec(),
    {
        match self {
            UniformDataType::Entity => "general.entity",
            UniformDataType::Object => "general.object",
            UniformDataType::CompositeObject => "general.composite-object",
            UniformDataType::Text => "general.text",
            UniformDataType::PlainText => "general.plain-text",
            UniformDataType::Html => "general.html",
            UniformDataType::Hyperlink => "general.hyperlink",
            UniformDataType::Xml => "general.xml",
            UniformDataType::SourceCode => "general.source-code",
            UniformDataType::Script => "general.script",
            UniformDataType::ShellScript => "general.shell-script",
            UniformDataType::CshScript => "general.csh-script",
            UniformDataType::PerlScript => "general.perl-script",
            UniformDataType::PhpScript => "general.php-script",
            UniformDataType::PythonScript => "general.python-script",
            UniformDataType::RubyScript => "general.ruby-script",
            UniformDataType::TypeScript => "general.type-script",
            UniformDataType::JavaScript => "general.java-script",
            UniformDataType::CHeader => "general.c-header",
            UniformDataType::CSource => "general.c-source",
            UniformDataType::CPlusPlusHeader => "general.c-plus-plus-header",
            UniformDataType::CPlusPlusSource => "general.c-plus-plus-source",
            UniformDataType::JavaSource => "general.java-source",
            UniformDataType::Ebook => "general.ebook",
            UniformDataType::Epub => "general.epub",
            UniformDataType::Azw => "com.amazon.azw",
            UniformDataType::Azw3 => "com.amazon.azw3",
            UniformDataType::Kfx => "com.amazon.kfx",
            UniformDataType::Mobi => "com.amazon.mobi",
            UniformDataType::Media => "general.media",
            UniformDataType::Image => "general.image",
            UniformDataType::Jpeg => "general.jpeg",
            UniformDataType::Png => "general.png",
            UniformDataType::RawImage => "general.raw-image",
            UniformDataType::Tiff => "general.tiff",
            UniformDataType::Bmp => "com.microsoft.bmp",
            UniformDataType::Ico => "com.microsoft.ico",
            UniformDataType::PhotoshopImage => "com.adobe.photoshop-image",
            UniformDataType::AiImage => "com.adobe.illustrator.ai-image",
            UniformDataType::WordDoc => "com.microsoft.word.doc",
            UniformDataType::Excel => "com.microsoft.excel.xls",
            UniformDataType::Ppt => "com.microsoft.powerpoint.ppt",
            UniformDataType::Pdf => "com.adobe.pdf",
            UniformDataType::Postscript => "com.adobe.postscript",
            UniformDataType::EncapsulatedPostscript => "com.adobe.encapsulated-postscript",
            UniformDataType::Video => "general.video",
            UniformDataType::Avi => "general.avi",
            UniformDataType::Mpeg => "general.mpeg",
            UniformDataType::Mpeg4 => "general.mpeg-4",
            UniformDataType::Video3gpp => "general.3gpp",
            UniformDataType::Video3gpp2 => "general.3gpp2",
            UniformDataType::WindowsMediaWm => "com.microsoft.windows-media-wm",
            UniformDataType::WindowsMediaWmv => "com.microsoft.windows-media-wmv",
            UniformDataType::WindowsMediaWmp => "com.microsoft.windows-media-wmp",
            UniformDataType::Audio => "general.audio",
            UniformDataType::Aac => "general.aac",
            UniformDataType::Aiff => "general.aiff",
            UniformDataType::Alac => "general.alac",
            UniformDataType::Flac => "general.flac",
            UniformDataType::Mp3 => "general.mp3",
            UniformDataType::Ogg => "general.ogg",
            UniformDataType::Pcm => "general.pcm",
            UniformDataType::WindowsMediaWma => "com.microsoft.windows-media-wma",
            UniformDataType::WaveformAudio => "com.microsoft.waveform-audio",
            UniformDataType::WindowsMediaWmx => "com.microsoft.windows-media-wmx",
            UniformDataType::WindowsMediaWvx => "com.microsoft.windows-media-wvx",
            UniformDataType::WindowsMediaWax => "com.microsoft.windows-media-wax",
            UniformDataType::GeneralFile => "general.file",
            UniformDataType::Directory => "general.directory",
            UniformDataType::Folder => "general.folder",
            UniformDataType::Symlink => "general.symlink",
            UniformDataType::Archive => "general.archive",
            UniformDataType::Bz2Archive => "general.bz2-archive",
            UniformDataType::DiskImage => "general.disk-image",
            UniformDataType::TarArchive => "general.tar-archive",
            UniformDataType::ZipArchive => "general.zip-archive",
            UniformDataType::JavaArchive => "com.sun.java-archive",
            UniformDataType::GnuTarArchive => "org.gnu.gnu-tar-archive",
            UniformDataType::GnuZipArchive => "org.gnu.gnu-zip-archive",
            UniformDataType::GnuZipTarArchive => "org.gnu.gnu-zip-tar-archive",
            UniformDataType::Calendar => "general.calendar",
            UniformDataType::Contact => "general.contact",
            UniformDataType::Database => "general.database",
            UniformDataType::Message => "general.message",
            UniformDataType::Vcard => "general.vcard",
            UniformDataType::Navigation => "general.navigation",
            UniformDataType::Location => "general.location",
            UniformDataType::OpenHarmonyForm => "openharmony.form",
            UniformDataType::OpenHarmonyAppItem => "openharmony.app-item",
            UniformDataType::OpenHarmonyPixelMap => "openharmony.pixel-map",
            UniformDataType::OpenHarmonyAtomicService => "openharmony.atomic-service",
            UniformDataType::OpenHarmonyPackage => "openharmony.package",
            UniformDataType::OpenHarmonyHap => "openharmony.hap",
            UniformDataType::Smil => "com.real.smil",
            UniformDataType::Markdown => "general.markdown",
            UniformDataType::Fax => "general.fax",
            UniformDataType::JfxFax => "com.j2.jfx-fax",
            UniformDataType::EfxFax => "com.js.efx-fax",
            UniformDataType::XbitmapImage => "general.xbitmap-image",
            UniformDataType::TgaImage => "com.truevision.tga-image",
            UniformDataType::SgiImage => "com.sgi.sgi-image",
            UniformDataType::OpenexrImage => "com.ilm.openexr-image",
            UniformDataType::FlashpixImage => "com.kodak.flashpix.image",
            UniformDataType::Realmedia => "com.real.realmedia",
            UniformDataType::AuAudio => "general.au-audio",
            UniformDataType::AifcAudio => "general.aifc-audio",
            UniformDataType::Sd2Audio => "com.digidesign.sd2-audio",
            UniformDataType::Realaudio => "com.real.realaudio",
            UniformDataType::Openxml => "org.openxmlformats.openxml",
            UniformDataType::WordprocessingmlDocument => "org.openxmlformats.wordprocessingml.document",
            UniformDataType::SpreadsheetmlSheet => "org.openxmlformats.spreadsheetml.sheet",
            UniformDataType::PresentationmlPresentation => "org.openxmlformats.presentationml.presentation",
            UniformDataType::Opendocument => "org.oasis.opendocument",
            UniformDataType::OpendocumentText => "org.oasis.opendocument.text",
            UniformDataType::OpendocumentSpreadsheet => "org.oasis.opendocument.spreadsheet",
            UniformDataType::OpendocumentPresentation => "org.oasis.opendocument.presentation",
            UniformDataType::OpendocumentGraphics => "org.oasis.opendocument.graphics",
            UniformDataType::OpendocumentFormula => "org.oasis.opendocument.formula",
            UniformDataType::StuffitArchive => "com.allume.stuffit-archive",
            UniformDataType::Vcs => "general.vcs",
            UniformDataType::Ics => "general.ics",
            UniformDataType::Executable => "general.executable",
            UniformDataType::PortableExecutable => "com.microsoft.portable-executable",
            UniformDataType::SunJavaClass => "com.sun.java-class",
            UniformDataType::Font => "general.font",
            UniformDataType::TruetypeFont => "general.truetype-font",
            UniformDataType::TruetypeCollectionFont => "general.truetype-collection-font",
            UniformDataType::OpentypeFont => "general.opentype-font",
            UniformDataType::PostscriptFont => "com.adobe.postscript-font",
            UniformDataType::PostscriptPfbFont => "com.adobe.postscript-pfb-font",
            UniformDataType::PostscriptPfaFont => "com.adobe.postscript-pfa-font",
            UniformDataType::OpenHarmonyHdoc => "openharmony.hdoc",
            UniformDataType::OpenHarmonyHinote => "openharmony.hinote",
            UniformDataType::OpenHarmonyStyledString => "openharmony.styled-string",
            UniformDataType::OpenHarmonyWant => "openharmony.want",
            UniformDataType::GeneralFileUri => "general.file-uri",
            UniformDataType::GeneralContentForm => "general.content-form",
            UniformDataType::Other(s) => s.as_str(),
        }
    }

    /// The wire string of this tag, as an owned string.
    pub fn to_wire(&self) -> (r: String)
        ensures
            r@ == self.wire_spec(),
    {
        self.as_wire_str().to_owned()
    }

    /// How a parsed tag relates to the wire string it was parsed from:
    /// the well-known tag the string denotes, or `Other` carrying the
    /// string verbatim.
    pub open spec fn spec_parses_wire(t: UniformDataType, s: Seq<char>) -> bool {
        match UniformDataType::spec_known_of_wire(s) {
            Some(v) => t == v,
            None => t is Other && t.wire_spec() == s,
        }
    }

    /// Parse a wire string: the well-known tag that spells it, or `Other`
    /// carrying the string verbatim. Any string is a valid, if
    /// unrecognized, tag: this never fails.
    pub fn from_wire(s: &str) -> (r: UniformDataType)
        ensures
            UniformDataType::spec_parses_wire(r, s@),
    {
        if str_eq(s, "general.entity") {
            UniformDataType::Entity
        } else if str_eq(s, "general.object") {
            UniformDataType::Object
        } else if str_eq(s, "general.composite-object") {
            UniformDataType::CompositeObject
        } else if str_eq(s, "general.text") {
            UniformDataType::Text
        } else if str_eq(s, "general.plain-text") {
            UniformDataType::PlainText
        } else if str_eq(s, "general.html") {
            UniformDataType::Html
        } else if str_eq(s, "general.hyperlink") {
            UniformDataType::Hyperlink
        } else if str_eq(s, "general.xml") {
            UniformDataType::Xml
        } else if str_eq(s, "general.source-code") {
            UniformDataType::SourceCode
        } else if str_eq(s, "general.script") {
            UniformDataType::Script
        } else if str_eq(s, "general.shell-script") {
            UniformDataType::ShellScript
        } else if str_eq(s, "general.csh-script") {
            UniformDataType::CshScript
        } else if str_eq(s, "general.perl-script") {
            UniformDataType::PerlScript
        } else if str_eq(s, "general.php-script") {
            UniformDataType::PhpScript
        } else if str_eq(s, "general.python-script") {
            UniformDataType::PythonScript
        } else if str_eq(s, "general.ruby-script") {
            UniformDataType::RubyScript
        } else if str_eq(s, "general.type-script") {
            UniformDataType::TypeScript
        } else if str_eq(s, "general.java-script") {
            UniformDataType::JavaScript
        } else if str_eq(s, "general.c-header") {
            UniformDataType::CHeader
        } else if str_eq(s, "general.c-source") {
            UniformDataType::CSource
        } else if str_eq(s, "general.c-plus-plus-header") {
            UniformDataType::CPlusPlusHeader
        } else if str_eq(s, "general.c-plus-plus-source") {
            UniformDataType::CPlusPlusSource
        } else if str_eq(s, "general.java-source") {
            UniformDataType::JavaSource
        } else if str_eq(s, "general.ebook") {
            UniformDataType::Ebook
        } else if str_eq(s, "general.epub") {
            UniformDataType::Epub
        } else if str_eq(s, "com.amazon.azw") {
            UniformDataType::Azw
        } else if str_eq(s, "com.amazon.azw3") {
            UniformDataType::Azw3
        } else if str_eq(s, "com.amazon.kfx") {
            UniformDataType::Kfx
        } else if str_eq(s, "com.amazon.mobi") {
            UniformDataType::Mobi
        } else if str_eq(s, "general.media") {
            UniformDataType::Media
        } else if str_eq(s, "general.image") {
            UniformDataType::Image
        } else if str_eq(s, "general.jpeg") {
            UniformDataType::Jpeg
        } else if str_eq(s, "general.png") {
            UniformDataType::Png
        } else if str_eq(s, "general.raw-image") {
            UniformDataType::RawImage
        } else if str_eq(s, "general.tiff") {
            UniformDataType::Tiff
        } else if str_eq(s, "com.microsoft.bmp") {
            UniformDataType::Bmp
        } else if str_eq(s, "com.microsoft.ico") {
            UniformDataType::Ico
        } else if str_eq(s, "com.adobe.photoshop-image") {
            UniformDataType::PhotoshopImage
        } else if str_eq(s, "com.adobe.illustrator.ai-image") {
            UniformDataType::AiImage
        } else if str_eq(s, "com.microsoft.word.doc") {
            UniformDataType::WordDoc
        } else if str_eq(s, "com.microsoft.excel.xls") {
            UniformDataType::Excel
        } else if str_eq(s, "com.microsoft.powerpoint.ppt") {
            UniformDataType::Ppt
        } else if str_eq(s, "com.adobe.pdf") {
            UniformDataType::Pdf
        } else if str_eq(s, "com.adobe.postscript") {
            UniformDataType::Postscript
        } else if str_eq(s, "com.adobe.encapsulated-postscript") {
            UniformDataType::EncapsulatedPostscript
        } else if str_eq(s, "general.video") {
            UniformDataType::Video
        } else if str_eq(s, "general.avi") {
            UniformDataType::Avi
        } else if str_eq(s, "general.mpeg") {
            UniformDataType::Mpeg
        } else if str_eq(s, "general.mpeg-4") {
            UniformDataType::Mpeg4
        } else if str_eq(s, "general.3gpp") {
            UniformDataType::Video3gpp
        } else if str_eq(s, "general.3gpp2") {
            UniformDataType::Video3gpp2
        } else if str_eq(s, "com.microsoft.windows-media-wm") {
            UniformDataType::WindowsMediaWm
        } else if str_eq(s, "com.microsoft.windows-media-wmv") {
            UniformDataType::WindowsMediaWmv
        } else if str_eq(s, "com.microsoft.windows-media-wmp") {
            UniformDataType::WindowsMediaWmp
        } else if str_eq(s, "general.audio") {
            UniformDataType::Audio
        } else if str_eq(s, "general.aac") {
            UniformDataType::Aac
        } else if str_eq(s, "general.aiff") {
            UniformDataType::Aiff
        } else if str_eq(s, "general.alac") {
            UniformDataType::Alac
        } else if str_eq(s, "general.flac") {
            UniformDataType::Flac
        } else if str_eq(s, "general.mp3") {
            UniformDataType::Mp3
        } else if str_eq(s, "general.ogg") {
            UniformDataType::Ogg
        } else if str_eq(s, "general.pcm") {
            UniformDataType::Pcm
        } else if str_eq(s, "com.microsoft.windows-media-wma") {
            UniformDataType::WindowsMediaWma
        } else if str_eq(s, "com.microsoft.waveform-audio") {
            UniformDataType::WaveformAudio
        } else if str_eq(s, "com.microsoft.windows-media-wmx") {
            UniformDataType::WindowsMediaWmx
        } else if str_eq(s, "com.microsoft.windows-media-wvx") {
            UniformDataType::WindowsMediaWvx
        } else if str_eq(s, "com.microsoft.windows-media-wax") {
            UniformDataType::WindowsMediaWax
        } else if str_eq(s, "general.file") {
            UniformDataType::GeneralFile
        } else if str_eq(s, "general.directory") {
            UniformDataType::Directory
        } else if str_eq(s, "general.folder") {
            UniformDataType::Folder
        } else if str_eq(s, "general.symlink") {
            UniformDataType::Symlink
        } else if str_eq(s, "general.archive") {
            UniformDataType::Archive
        } else if str_eq(s, "general.bz2-archive") {
            UniformDataType::Bz2Archive
        } else if str_eq(s, "general.disk-image") {
            UniformDataType::DiskImage
        } else if str_eq(s, "general.tar-archive") {
            UniformDataType::TarArchive
        } else if str_eq(s, "general.zip-archive") {
            UniformDataType::ZipArchive
        } else if str_eq(s, "com.sun.java-archive") {
            UniformDataType::JavaArchive
        } else if str_eq(s, "org.gnu.gnu-tar-archive") {
            UniformDataType::GnuTarArchive
        } else if str_eq(s, "org.gnu.gnu-zip-archive") {
            UniformDataType::GnuZipArchive
        } else if str_eq(s, "org.gnu.gnu-zip-tar-archive") {
            UniformDataType::GnuZipTarArchive
        } else if str_eq(s, "general.calendar") {
            UniformDataType::Calendar
        } else if str_eq(s, "general.contact") {
            UniformDataType::Contact
        } else if str_eq(s, "general.database") {
            UniformDataType::Database
        } else if str_eq(s, "general.message") {
            UniformDataType::Message
        } else if str_eq(s, "general.vcard") {
            UniformDataType::Vcard
        } else if str_eq(s, "general.navigation") {
            UniformDataType::Navigation
        } else if str_eq(s, "general.location") {
            UniformDataType::Location
        } else if str_eq(s, "openharmony.form") {
            UniformDataType::OpenHarmonyForm
        } else if str_eq(s, "openharmony.app-item") {
            UniformDataType::OpenHarmonyAppItem
        } else if str_eq(s, "openharmony.pixel-map") {
            UniformDataType::OpenHarmonyPixelMap
        } else if str_eq(s, "openharmony.atomic-service") {
            UniformDataType::OpenHarmonyAtomicService
        } else if str_eq(s, "openharmony.package") {
            UniformDataType::OpenHarmonyPackage
        } else if str_eq(s, "openharmony.hap") {
            UniformDataType::OpenHarmonyHap
        } else if str_eq(s, "com.real.smil") {
            UniformDataType::Smil
        } else if str_eq(s, "general.markdown") {
            UniformDataType::Markdown
        } else if str_eq(s, "general.fax") {
            UniformDataType::Fax
        } else if str_eq(s, "com.j2.jfx-fax") {
            UniformDataType::JfxFax
        } else if str_eq(s, "com.js.efx-fax") {
            UniformDataType::EfxFax
        } else if str_eq(s, "general.xbitmap-image") {
            UniformDataType::XbitmapImage
        } else if str_eq(s, "com.truevision.tga-image") {
            UniformDataType::TgaImage
        } else if str_eq(s, "com.sgi.sgi-image") {
            UniformDataType::SgiImage
        } else if str_eq(s, "com.ilm.openexr-image") {
            UniformDataType::OpenexrImage
        } else if str_eq(s, "com.kodak.flashpix.image") {
            UniformDataType::FlashpixImage
        } else if str_eq(s, "com.real.realmedia") {
            UniformDataType::Realmedia
        } else if str_eq(s, "general.au-audio") {
            UniformDataType::AuAudio
        } else if str_eq(s, "general.aifc-audio") {
            UniformDataType::AifcAudio
        } else if str_eq(s, "com.digidesign.sd2-audio") {
            UniformDataType::Sd2Audio
        } else if str_eq(s, "com.real.realaudio") {
            UniformDataType::Realaudio
        } else if str_eq(s, "org.openxmlformats.openxml") {
            UniformDataType::Openxml
        } else if str_eq(s, "org.openxmlformats.wordprocessingml.document") {
            UniformDataType::WordprocessingmlDocument
        } else if str_eq(s, "org.openxmlformats.spreadsheetml.sheet") {
            UniformDataType::SpreadsheetmlSheet
        } else if str_eq(s, "org.openxmlformats.presentationml.presentation") {
            UniformDataType::PresentationmlPresentation
        } else if str_eq(s, "org.oasis.opendocument") {
            UniformDataType::Opendocument
        } else if str_eq(s, "org.oasis.opendocument.text") {
            UniformDataType::OpendocumentText
        } else if str_eq(s, "org.oasis.opendocument.spreadsheet") {
            UniformDataType::OpendocumentSpreadsheet
        } else if str_eq(s, "org.oasis.opendocument.presentation") {
            UniformDataType::OpendocumentPresentation
        } else if str_eq(s, "org.oasis.opendocument.graphics") {
            UniformDataType::OpendocumentGraphics
        } else if str_eq(s, "org.oasis.opendocument.formula") {
            UniformDataType::OpendocumentFormula
        } else if str_eq(s, "com.allume.stuffit-archive") {
            UniformDataType::StuffitArchive
        } else if str_eq(s, "general.vcs") {
            UniformDataType::Vcs
        } else if str_eq(s, "general.ics") {
            UniformDataType::Ics
        } else if str_eq(s, "general.executable") {
            UniformDataType::Executable
        } else if str_eq(s, "com.microsoft.portable-executable") {
            UniformDataType::PortableExecutable
        } else if str_eq(s, "com.sun.java-class") {
            UniformDataType::SunJavaClass
        } else if str_eq(s, "general.font") {
            UniformDataType::Font
        } else if str_eq(s, "general.truetype-font") {
            UniformDataType::TruetypeFont
        } else if str_eq(s, "general.truetype-collection-font") {
            UniformDataType::TruetypeCollectionFont
        } else if str_eq(s, "general.opentype-font") {
            UniformDataType::OpentypeFont
        } else if str_eq(s, "com.adobe.postscript-font") {
            UniformDataType::PostscriptFont
        } else if str_eq(s, "com.adobe.postscript-pfb-font") {
            UniformDataType::PostscriptPfbFont
        } else if str_eq(s, "com.adobe.postscript-pfa-font") {
            UniformDataType::PostscriptPfaFont
        } else if str_eq(s, "openharmony.hdoc") {
            UniformDataType::OpenHarmonyHdoc
        } else if str_eq(s, "openharmony.hinote") {
            UniformDataType::OpenHarmonyHinote
        } else if str_eq(s, "openharmony.styled-string") {
            UniformDataType::OpenHarmonyStyledString
        } else if str_eq(s, "openharmony.want") {
            UniformDataType::OpenHarmonyWant
        } else if str_eq(s, "general.file-uri") {
            UniformDataType::GeneralFileUri
        } else if str_eq(s, "general.content-form") {
            UniformDataType::GeneralContentForm
        } else {
            UniformDataType::Other(s.to_owned())
        }
    }

    /// The null-terminated byte representation of this tag's wire string,
    /// as it is handed across the boundary. A wire string holding an
    /// embedded null byte (possible only for `Other` tags) cannot be
    /// represented and is rejected with `InvalidParam`.
    pub fn to_cstr(&self) -> (r: Result<Vec<u8>, UdmfError>)
        ensures
            !has_nul(encode_utf8(self.wire_spec())) ==> (r matches Ok(v) && v@ == encode_utf8(
                self.wire_spec(),
            ).push(0u8)),
            has_nul(encode_utf8(self.wire_spec())) ==> r == Err::<Vec<u8>, UdmfError>(
                UdmfError::InvalidParam,
            ),
    {
        c_string_bytes(self.as_wire_str())
    }
}

impl PartialEq for UniformDataType {
    /// Tags compare equal on their wire strings, not their variant names.
    fn eq(&self, other: &UniformDataType) -> (r: bool) {
        str_eq(self.as_wire_str(), other.as_wire_str())
    }
}

impl vstd::std_specs::cmp::PartialEqSpecImpl for UniformDataType {
    open spec fn obeys_eq_spec() -> bool {
        true
    }

    open spec fn eq_spec(&self, other: &UniformDataType) -> bool {
        self.wire_spec() == other.wire_spec()
    }
}

/// The tag a descriptor identity getter denotes: an absent (null)
/// identity string becomes the empty custom tag, a present one is
/// re-parsed exactly as `from_wire` parses it.
pub fn tag_or_empty(v: Option<String>) -> (r: UniformDataType)
    ensures
        v is None ==> (r matches UniformDataType::Other(o) && o@ == Seq::<char>::empty()),
        v matches Some(s) ==> UniformDataType::spec_parses_wire(r, s@),
{
    match v {
        None => UniformDataType::Other(String::new()),
        Some(s) => UniformDataType::from_wire(s.as_str()),
    }
}

/// The present entries of a boundary string list, in order: an absent
/// (null) entry contributes nothing.
pub open spec fn spec_present_strings(items: Seq<Option<String>>) -> Seq<Seq<char>>
    decreases items.len(),
{
    if items.len() == 0 {
        Seq::empty()
    } else {
        let rest = spec_present_strings(items.drop_last());
        match items.last() {
            Some(s) => rest.push(s@),
            None => rest,
        }
    }
}

/// Parse a boundary string list into tags: absent (null) entries are
/// skipped rather than surfaced as empty items, the order of the present
/// entries is kept, and each present wire string parses exactly as
/// `from_wire` parses it.
pub fn tags_of_wire_list(items: Vec<Option<String>>) -> (r: Vec<UniformDataType>)
    ensures
        r@.len() == spec_present_strings(items@).len(),
        forall|k: int|
            0 <= k < r@.len() ==> UniformDataType::spec_parses_wire(
                r@[k],
                spec_present_strings(items@)[k],
            ),
{
    let n = items.len();
    let mut tags: Vec<UniformDataType> = Vec::new();
    let mut i: usize = 0;
    while i < n
        invariant
            i <= n,
            n == items@.len(),
            tags@.len() == spec_present_strings(items@.take(i as int)).len(),
            forall|k: int|
                0 <= k < tags@.len() ==> UniformDataType::spec_parses_wire(
                    tags@[k],
                    spec_present_strings(items@.take(i as int))[k],
                ),
        decreases n - i,
    {
        let ghost prefix = items@.take(i as int);
        match &items[i] {
            Some(s) => {
                tags.push(UniformDataType::from_wire(s.as_str()));
            },
            None => {},
        }
        i += 1;
        proof {
            let taken = items@.take(i as int);
            assert(taken.drop_last() =~= prefix);
            assert(taken.last() == items@[i - 1]);
        }
    }
    proof {
        assert(items@.take(n as int) =~= items@);
    }
    tags
}

#[verifier::rlimit(100)]
proof fn round_trip_chunk_0()
    ensures
        UniformDataType::spec_known_of_wire((UniformDataType::Entity).wire_spec())
            == Some(UniformDataType::Entity),
        UniformDataType::spec_known_of_wire((UniformDataType::Object).wire_spec())
            == Some(UniformDataType::Object),
        UniformDataType::spec_known_of_wire((UniformDataType::CompositeObject).wire_spec())
            == Some(UniformDataType::CompositeObject),
        UniformDataType::spec_known_of_wire((UniformDataType::Text).wire_spec())
            == Some(UniformDataType::Text),
        UniformDataType::spec_known_of_wire((UniformDataType::PlainText).wire_spec())
            == Some(UniformDataType::PlainText),
        UniformDataType::spec_known_of_wire((UniformDataType::Html).wire_spec())
            == Some(UniformDataType::Html),
        UniformDataType::spec_known_of_wire((UniformDataType::Hyperlink).wire_spec())
            == Some(UniformDataType::Hyperlink),
        UniformDataType::spec_known_of_wire((UniformDataType::Xml).wire_spec())
            == Some(UniformDataType::Xml),
        UniformDataType::spec_known_of_wire((UniformDataType::SourceCode).wire_spec())
            == Some(UniformDataType::SourceCode),
        UniformDataType::spec_known_of_wire((UniformDataType::Script).wire_spec())
            == Some(UniformDataType::Script),
        UniformDataType::spec_known_of_wire((UniformDataType::ShellScript).wire_spec())
            == Some(UniformDataType::ShellScript),
        UniformDataType::spec_known_of_wire((UniformDataType::CshScript).wire_spec())
            == Some(UniformDataType::CshScript),
        UniformDataType::spec_known_of_wire((UniformDataType::PerlScript).wire_spec())
            == Some(UniformDataType::PerlScript),
        UniformDataType::spec_known_of_wire((UniformDataType::PhpScript).wire_spec())
            == Some(UniformDataType::PhpScript),
        UniformDataType::spec_known_of_wire((UniformDataType::PythonScript).wire_spec())
            == Some(UniformDataType::PythonScript),
        UniformDataType::spec_known_of_wire((UniformDataType::RubyScript).wire_spec())
            == Some(UniformDataType::RubyScript),
        UniformDataType::spec_known_of_wire((UniformDataType::TypeScript).wire_spec())
            == Some(UniformDataType::TypeScript),
        UniformDataType::spec_known_of_wire((UniformDataType::JavaScript).wire_spec())
            == Some(UniformDataType::JavaScript),
        UniformDataType::spec_known_of_wire((UniformDataType::CHeader).wire_spec())
            == Some(UniformDataType::CHeader),
        UniformDataType::spec_known_of_wire((UniformDataType::CSource).wire_spec())
            == Some(UniformDataType::CSource),
        UniformDataType::spec_known_of_wire((UniformDataType::CPlusPlusHeader).wire_spec())
            == Some(UniformDataType::CPlusPlusHeader),
        UniformDataType::spec_known_of_wire((UniformDataType::CPlusPlusSource).wire_spec())
            == Some(UniformDataType::CPlusPlusSource),
        UniformDataType::spec_known_of_wire((UniformDataType::JavaSource).wire_spec())
            == Some(UniformDataType::JavaSource),
        UniformDataType::spec_known_of_wire((UniformDataType::Ebook).wire_spec())
            == Some(UniformDataType::Ebook),
        UniformDataType::spec_known_of_wire((UniformDataType::Epub).wire_spec())
            == Some(UniformDataType::Epub),
{
    reveal_strlit("general.entity");
    reveal_strlit("general.object");
    reveal_strlit("general.composite-object");
    reveal_strlit("general.text");
    reveal_strlit("general.plain-text");
    reveal_strlit("general.html");
    reveal_strlit("general.hyperlink");
    reveal_strlit("general.xml");
    reveal_strlit("general.source-code");
    reveal_strlit("general.script");
    reveal_strlit("general.shell-script");
    reveal_strlit("general.csh-script");
    reveal_strlit("general.perl-script");
    reveal_strlit("general.php-script");
    reveal_strlit("general.python-script");
    reveal_strlit("general.ruby-script");
    reveal_strlit("general.type-script");
    reveal_strlit("general.java-script");
    reveal_strlit("general.c-header");
    reveal_strlit("general.c-source");
    reveal_strlit("general.c-plus-plus-header");
    reveal_strlit("general.c-plus-plus-source");
    reveal_strlit("general.java-source");
    reveal_strlit("general.ebook");
    reveal_strlit("general.epub");
    assert("general.entity"@.len() == 14);
    assert("general.object"@.len() == 14);
    assert("general.composite-object"@.len() == 24);
    assert("general.text"@.len() == 12);
    assert("general.plain-text"@.len() == 18);
    assert("general.html"@.len() == 12);
    assert("general.hyperlink"@.len() == 17);
    assert("general.xml"@.len() == 11);
    assert("general.source-code"@.len() == 19);
    assert("general.script"@.len() == 14);
    assert("general.shell-script"@.len() == 20);
    assert("general.csh-script"@.len() == 18);
    assert("general.perl-script"@.len() == 19);
    assert("general.php-script"@.len() == 18);
    assert("general.python-script"@.len() == 21);
    assert("general.ruby-script"@.len() == 19);
    assert("general.type-script"@.len() == 19);
    assert("general.java-script"@.len() == 19);
    assert("general.c-header"@.len() == 16);
    assert("general.c-source"@.len() == 16);
    assert("general.c-plus-plus-header"@.len() == 26);
    assert("general.c-plus-plus-source"@.len() == 26);
    assert("general.java-source"@.len() == 19);
    assert("general.ebook"@.len() == 13);
    assert("general.epub"@.len() == 12);
    assert("general.entity"@[0] == 'g');
    assert("general.entity"@[8] == 'e');
    assert("general.object"@[0] == 'g');
    assert("general.object"@[8] == 'o');
    assert("general.composite-object"@[0] == 'g');
    assert("general.text"@[8] == 't');
    assert("general.text"@[9] == 'e');
    assert("general.plain-text"@[0] == 'g');
    assert("general.plain-text"@[8] == 'p');
    assert("general.plain-text"@[9] == 'l');
    assert("general.html"@[8] == 'h');
    assert("general.hyperlink"@[0] == 'g');
    assert("general.hyperlink"@[8] == 'h');
    assert("general.xml"@[8] == 'x');
    assert("general.source-code"@[0] == 'g');
    assert("general.source-code"@[8] == 's');
    assert("general.script"@[0] == 'g');
    assert("general.script"@[8] == 's');
    assert("general.shell-script"@[0] == 'g');
    assert("general.shell-script"@[8] == 's');
    assert("general.csh-script"@[0] == 'g');
    assert("general.csh-script"@[8] == 'c');
    assert("general.perl-script"@[0] == 'g');
    assert("general.perl-script"@[8] == 'p');
    assert("general.php-script"@[0] == 'g');
    assert("general.php-script"@[8] == 'p');
    assert("general.php-script"@[9] == 'h');
    assert("general.python-script"@[0] == 'g');
    assert("general.python-script"@[8] == 'p');
    assert("general.ruby-script"@[0] == 'g');
    assert("general.ruby-script"@[8] == 'r');
    assert("general.type-script"@[0] == 'g');
    assert("general.type-script"@[8] == 't');
    assert("general.type-script"@[9] == 'y');
    assert("general.java-script"@[0] == 'g');
    assert("general.java-script"@[8] == 'j');
    assert("general.java-script"@[14] == 'c');
    assert("general.c-header"@[0] == 'g');
    assert("general.c-header"@[8] == 'c');
    assert("general.c-header"@[9] == '-');
    assert("general.c-header"@[10] == 'h');
    assert("general.c-source"@[0] == 'g');
    assert("general.c-source"@[8] == 'c');
    assert("general.c-source"@[9] == '-');
    assert("general.c-source"@[10] == 's');
    assert("general.c-plus-plus-header"@[0] == 'g');
    assert("general.c-plus-plus-header"@[20] == 'h');
    assert("general.c-plus-plus-source"@[0] == 'g');
    assert("general.c-plus-plus-source"@[20] == 's');
    assert("general.java-source"@[0] == 'g');
    assert("general.java-source"@[8] == 'j');
    assert("general.java-source"@[14] == 'o');
    assert("general.ebook"@[0] == 'g');
    assert("general.ebook"@[8] == 'e');
    assert("general.epub"@[8] == 'e');
}

#[verifier::rlimit(100)]
proof fn round_trip_chunk_1()
    ensures
        UniformDataType::spec_known_of_wire((UniformDataType::Azw).wire_spec())
            == Some(UniformDataType::Azw),
        UniformDataType::spec_known_of_wire((UniformDataType::Azw3).wire_spec())
            == Some(UniformDataType::Azw3),
        UniformDataType::spec_known_of_wire((UniformDataType::Kfx).wire_spec())
            == Some(UniformDataType::Kfx),
        UniformDataType::spec_known_of_wire((UniformDataType::Mobi).wire_spec())
            == Some(UniformDataType::Mobi),
        UniformDataType::spec_known_of_wire((UniformDataType::Media).wire_spec())
            == Some(UniformDataType::Media),
        UniformDataType::spec_known_of_wire((UniformDataType::Image).wire_spec())
            == Some(UniformDataType::Image),
        UniformDataType::spec_known_of_wire((UniformDataType::Jpeg).wire_spec())
            == Some(UniformDataType::Jpeg),
        UniformDataType::spec_known_of_wire((UniformDataType::Png).wire_spec())
            == Some(UniformDataType::Png),
        UniformDataType::spec_known_of_wire((UniformDataType::RawImage).wire_spec())
            == Some(UniformDataType::RawImage),
        UniformDataType::spec_known_of_wire((UniformDataType::Tiff).wire_spec())
            == Some(UniformDataType::Tiff),
        UniformDataType::spec_known_of_wire((UniformDataType::Bmp).wire_spec())
            == Some(UniformDataType::Bmp),
        UniformDataType::spec_known_of_wire((UniformDataType::Ico).wire_spec())
            == Some(UniformDataType::Ico),
        UniformDataType::spec_known_of_wire((UniformDataType::PhotoshopImage).wire_spec())
            == Some(UniformDataType::PhotoshopImage),
        UniformDataType::spec_known_of_wire((UniformDataType::AiImage).wire_spec())
            == Some(UniformDataType::AiImage),
        UniformDataType::spec_known_of_wire((UniformDataType::WordDoc).wire_spec())
            == Some(UniformDataType::WordDoc),
        UniformDataType::spec_known_of_wire((UniformDataType::Excel).wire_spec())
            == Some(UniformDataType::Excel),
        UniformDataType::spec_known_of_wire((UniformDataType::Ppt).wire_spec())
            == Some(UniformDataType::Ppt),
        UniformDataType::spec_known_of_wire((UniformDataType::Pdf).wire_spec())
            == Some(UniformDataType::Pdf),
        UniformDataType::spec_known_of_wire((UniformDataType::Postscript).wire_spec())
            == Some(UniformDataType::Postscript),
        UniformDataType::spec_known_of_wire((UniformDataType::EncapsulatedPostscript).wire_spec())
            == Some(UniformDataType::EncapsulatedPostscript),
        UniformDataType::spec_known_of_wire((UniformDataType::Video).wire_spec())
            == Some(UniformDataType::Video),
        UniformDataType::spec_known_of_wire((UniformDataType::Avi).wire_spec())
            == Some(UniformDataType::Avi),
        UniformDataType::spec_known_of_wire((UniformDataType::Mpeg).wire_spec())
            == Some(UniformDataType::Mpeg),
        UniformDataType::spec_known_of_wire((UniformDataType::Mpeg4).wire_spec())
            == Some(UniformDataType::Mpeg4),
        UniformDataType::spec_known_of_wire((UniformDataType::Video3gpp).wire_spec())
            == Some(UniformDataType::Video3gpp),
{
    reveal_strlit("general.entity");
    reveal_strlit("general.object");
    reveal_strlit("general.composite-object");
    reveal_strlit("general.text");
    reveal_strlit("general.plain-text");
    reveal_strlit("general.html");
    reveal_strlit("general.hyperlink");
    reveal_strlit("general.xml");
    reveal_strlit("general.source-code");
    reveal_strlit("general.script");
    reveal_strlit("general.shell-script");
    reveal_strlit("general.csh-script");
    reveal_strlit("general.perl-script");
    reveal_strlit("general.php-script");
    reveal_strlit("general.python-script");
    reveal_strlit("general.ruby-script");
    reveal_strlit("general.type-script");
    reveal_strlit("general.java-script");
    reveal_strlit("general.c-header");
    reveal_strlit("general.c-source");
    reveal_strlit("general.c-plus-plus-header");
    reveal_strlit("general.c-plus-plus-source");
    reveal_strlit("general.java-source");
    reveal_strlit("general.ebook");
    reveal_strlit("general.epub");
    reveal_strlit("com.amazon.azw");
    reveal_strlit("com.amazon.azw3");
    reveal_strlit("com.amazon.kfx");
    reveal_strlit("com.amazon.mobi");
    reveal_strlit("general.media");
    reveal_strlit("general.image");
    reveal_strlit("general.jpeg");
    reveal_strlit("general.png");
    reveal_strlit("general.raw-image");
    reveal_strlit("general.tiff");
    reveal_strlit("com.microsoft.bmp");
    reveal_strlit("com.microsoft.ico");
    reveal_strlit("com.adobe.photoshop-image");
    reveal_strlit("com.adobe.illustrator.ai-image");
    reveal_strlit("com.microsoft.word.doc");
    reveal_strlit("com.microsoft.excel.xls");
    reveal_strlit("com.microsoft.powerpoint.ppt");
    reveal_strlit("com.adobe.pdf");
    reveal_strlit("com.adobe.postscript");
    reveal_strlit("com.adobe.encapsulated-postscript");
    reveal_strlit("general.video");
    reveal_strlit("general.avi");
    reveal_strlit("general.mpeg");
    reveal_strlit("general.mpeg-4");
    reveal_strlit("general.3gpp");
    assert("general.entity"@.len() == 14);
    assert("general.object"@.len() == 14);
    assert("general.composite-object"@.len() == 24);
    assert("general.text"@.len() == 12);
    assert("general.plain-text"@.len() == 18);
    assert("general.html"@.len() == 12);
    assert("general.hyperlink"@.len() == 17);
    assert("general.xml"@.len() == 11);
    assert("general.source-code"@.len() == 19);
    assert("general.script"@.len() == 14);
    assert("general.shell-script"@.len() == 20);
    assert("general.csh-script"@.len() == 18);
    assert("general.perl-script"@.len() == 19);
    assert("general.php-script"@.len() == 18);
    assert("general.python-script"@.len() == 21);
    assert("general.ruby-script"@.len() == 19);
    assert("general.type-script"@.len() == 19);
    assert("general.java-script"@.len() == 19);
    assert("general.c-header"@.len() == 16);
    assert("general.c-source"@.len() == 16);
    assert("general.c-plus-plus-header"@.len() == 26);
    assert("general.c-plus-plus-source"@.len() == 26);
    assert("general.java-source"@.len() == 19);
    assert("general.ebook"@.len() == 13);
    assert("general.epub"@.len() == 12);
    assert("com.amazon.azw"@.len() == 14);
    assert("com.amazon.azw3"@.len() == 15);
    assert("com.amazon.kfx"@.len() == 14);
    assert("com.amazon.mobi"@.len() == 15);
    assert("general.media"@.len() == 13);
    assert("general.image"@.len() == 13);
    assert("general.jpeg"@.len() == 12);
    assert("general.png"@.len() == 11);
    assert("general.raw-image"@.len() == 17);
    assert("general.tiff"@.len() == 12);
    assert("com.microsoft.bmp"@.len() == 17);
    assert("com.microsoft.ico"@.len() == 17);
    assert("com.adobe.photoshop-image"@.len() == 25);
    assert("com.adobe.illustrator.ai-image"@.len() == 30);
    assert("com.microsoft.word.doc"@.len() == 22);
    assert("com.microsoft.excel.xls"@.len() == 23);
    assert("com.microsoft.powerpoint.ppt"@.len() == 28);
    assert("com.adobe.pdf"@.len() == 13);
    assert("com.adobe.postscript"@.len() == 20);
    assert("com.adobe.encapsulated-postscript"@.len() == 33);
    assert("general.video"@.len() == 13);
    assert("general.avi"@.len() == 11);
    assert("general.mpeg"@.len() == 12);
    assert("general.mpeg-4"@.len() == 14);
    assert("general.3gpp"@.len() == 12);
    assert("general.entity"@[0] == 'g');
    assert("general.entity"@[8] == 'e');
    assert("general.object"@[0] == 'g');
    assert("general.object"@[8] == 'o');
    assert("general.composite-object"@[0] == 'g');
    assert("general.text"@[8] == 't');
    assert("general.text"@[9] == 'e');
    assert("general.plain-text"@[0] == 'g');
    assert("general.plain-text"@[8] == 'p');
    assert("general.plain-text"@[9] == 'l');
    assert("general.html"@[8] == 'h');
    assert("general.hyperlink"@[0] == 'g');
    assert("general.hyperlink"@[8] == 'h');
    assert("general.xml"@[8] == 'x');
    assert("general.source-code"@[0] == 'g');
    assert("general.source-code"@[8] == 's');
    assert("general.script"@[0] == 'g');
    assert("general.script"@[8] == 's');
    assert("general.shell-script"@[0] == 'g');
    assert("general.shell-script"@[8] == 's');
    assert("general.csh-script"@[0] == 'g');
    assert("general.csh-script"@[8] == 'c');
    assert("general.perl-script"@[0] == 'g');
    assert("general.perl-script"@[8] == 'p');
    assert("general.php-script"@[0] == 'g');
    assert("general.php-script"@[8] == 'p');
    assert("general.php-script"@[9] == 'h');
    assert("general.python-script"@[0] == 'g');
    assert("general.python-script"@[8] == 'p');
    assert("general.ruby-script"@[0] == 'g');
    assert("general.ruby-script"@[8] == 'r');
    assert("general.type-script"@[0] == 'g');
    assert("general.type-script"@[8] == 't');
    assert("general.type-script"@[9] == 'y');
    assert("general.java-script"@[0] == 'g');
    assert("general.java-script"@[8] == 'j');
    assert("general.java-script"@[14] == 'c');
    assert("general.c-header"@[0] == 'g');
    assert("general.c-header"@[8] == 'c');
    assert("general.c-header"@[9] == '-');
    assert("general.c-header"@[10] == 'h');
    assert("general.c-source"@[0] == 'g');
    assert("general.c-source"@[8] == 'c');
    assert("general.c-source"@[9] == '-');
    assert("general.c-source"@[10] == 's');
    assert("general.c-plus-plus-header"@[0] == 'g');
    assert("general.c-plus-plus-header"@[20] == 'h');
    assert("general.c-plus-plus-source"@[0] == 'g');
    assert("general.c-plus-plus-source"@[20] == 's');
    assert("general.java-source"@[0] == 'g');
    assert("general.java-source"@[8] == 'j');
    assert("general.java-source"@[14] == 'o');
    assert("general.ebook"@[0] == 'g');
    assert("general.ebook"@[8] == 'e');
    assert("general.epub"@[8] == 'e');
    assert("com.amazon.azw"@[0] == 'c');
    assert("com.amazon.azw"@[4] == 'a');
    assert("com.amazon.azw"@[11] == 'a');
    assert("com.amazon.azw3"@[0] == 'c');
    assert("com.amazon.azw3"@[11] == 'a');
    assert("com.amazon.kfx"@[0] == 'c');
    assert("com.amazon.kfx"@[4] == 'a');
    assert("com.amazon.kfx"@[11] == 'k');
    assert("com.amazon.mobi"@[0] == 'c');
    assert("com.amazon.mobi"@[11] == 'm');
    assert("general.media"@[0] == 'g');
    assert("general.media"@[8] == 'm');
    assert("general.image"@[0] == 'g');
    assert("general.image"@[8] == 'i');
    assert("general.jpeg"@[8] == 'j');
    assert("general.png"@[8] == 'p');
    assert("general.png"@[9] == 'n');
    assert("general.raw-image"@[0] == 'g');
    assert("general.raw-image"@[8] == 'r');
    assert("general.tiff"@[8] == 't');
    assert("general.tiff"@[9] == 'i');
    assert("com.microsoft.bmp"@[0] == 'c');
    assert("com.microsoft.bmp"@[4] == 'm');
    assert("com.microsoft.bmp"@[14] == 'b');
    assert("com.microsoft.ico"@[0] == 'c');
    assert("com.microsoft.ico"@[4] == 'm');
    assert("com.microsoft.ico"@[14] == 'i');
    assert("com.adobe.photoshop-image"@[0] == 'c');
    assert("com.adobe.photoshop-image"@[11] == 'h');
    assert("com.adobe.illustrator.ai-image"@[0] == 'c');
    assert("com.adobe.illustrator.ai-image"@[4] == 'a');
    assert("com.microsoft.word.doc"@[0] == 'c');
    assert("com.microsoft.excel.xls"@[0] == 'c');
    assert("com.microsoft.powerpoint.ppt"@[14] == 'p');
    assert("com.adobe.pdf"@[0] == 'c');
    assert("com.adobe.pdf"@[4] == 'a');
    assert("com.adobe.postscript"@[0] == 'c');
    assert("com.adobe.postscript"@[4] == 'a');
    assert("com.adobe.encapsulated-postscript"@[4] == 'a');
    assert("general.video"@[0] == 'g');
    assert("general.video"@[8] == 'v');
    assert("general.video"@[9] == 'i');
    assert("general.avi"@[8] == 'a');
    assert("general.avi"@[9] == 'v');
    assert("general.mpeg"@[8] == 'm');
    assert("general.mpeg-4"@[0] == 'g');
    assert("general.mpeg-4"@[8] == 'm');
    assert("general.3gpp"@[8] == '3');
}

#[verifier::rlimit(100)]
proof fn round_trip_chunk_2()
    ensures
        UniformDataType::spec_known_of_wire((UniformDataType::Video3gpp2).wire_spec())
            == Some(UniformDataType::Video3gpp2),
        UniformDataType::spec_known_of_wire((UniformDataType::WindowsMediaWm).wire_spec())
            == Some(UniformDataType::WindowsMediaWm),
        UniformDataType::spec_known_of_wire((UniformDataType::WindowsMediaWmv).wire_spec())
            == Some(UniformDataType::WindowsMediaWmv),
        UniformDataType::spec_known_of_wire((UniformDataType::WindowsMediaWmp).wire_spec())
            == Some(UniformDataType::WindowsMediaWmp),
        UniformDataType::spec_known_of_wire((UniformDataType::Audio).wire_spec())
            == Some(UniformDataType::Audio),
        UniformDataType::spec_known_of_wire((UniformDataType::Aac).wire_spec())
            == Some(UniformDataType::Aac),
        UniformDataType::spec_known_of_wire((UniformDataType::Aiff).wire_spec())
            == Some(UniformDataType::Aiff),
        UniformDataType::spec_known_of_wire((UniformDataType::Alac).wire_spec())
            == Some(UniformDataType::Alac),
        UniformDataType::spec_known_of_wire((UniformDataType::Flac).wire_spec())
            == Some(UniformDataType::Flac),
        UniformDataType::spec_known_of_wire((UniformDataType::Mp3).wire_spec())
            == Some(UniformDataType::Mp3),
        UniformDataType::spec_known_of_wire((UniformDataType::Ogg).wire_spec())
            == Some(UniformDataType::Ogg),
        UniformDataType::spec_known_of_wire((UniformDataType::Pcm).wire_spec())
            == Some(UniformDataType::Pcm),
        UniformDataType::spec_known_of_wire((UniformDataType::WindowsMediaWma).wire_spec())
            == Some(UniformDataType::WindowsMediaWma),
        UniformDataType::spec_known_of_wire((UniformDataType::WaveformAudio).wire_spec())
            == Some(UniformDataType::WaveformAudio),
        UniformDataType::spec_known_of_wire((UniformDataType::WindowsMediaWmx).wire_spec())
            == Some(UniformDataType::WindowsMediaWmx),
        UniformDataType::spec_known_of_wire((UniformDataType::WindowsMediaWvx).wire_spec())
            == Some(UniformDataType::WindowsMediaWvx),
        UniformDataType::spec_known_of_wire((UniformDataType::WindowsMediaWax).wire_spec())
            == Some(UniformDataType::WindowsMediaWax),
        UniformDataType::spec_known_of_wire((UniformDataType::GeneralFile).wire_spec())
            == Some(UniformDataType::GeneralFile),
        UniformDataType::spec_known_of_wire((UniformDataType::Directory).wire_spec())
            == Some(UniformDataType::Directory),
        UniformDataType::spec_known_of_wire((UniformDataType::Folder).wire_spec())
            == Some(UniformDataType::Folder),
        UniformDataType::spec_known_of_wire((UniformDataType::Symlink).wire_spec())
            == Some(UniformDataType::Symlink),
        UniformDataType::spec_known_of_wire((UniformDataType::Archive).wire_spec())
            == Some(UniformDataType::Archive),
        UniformDataType::spec_known_of_wire((UniformDataType::Bz2Archive).wire_spec())
            == Some(UniformDataType::Bz2Archive),
        UniformDataType::spec_known_of_wire((UniformDataType::DiskImage).wire_spec())
            == Some(UniformDataType::DiskImage),
        UniformDataType::spec_known_of_wire((UniformDataType::TarArchive).wire_spec())
            == Some(UniformDataType::TarArchive),
{
    reveal_strlit("general.entity");
    reveal_strlit("general.object");
    reveal_strlit("general.composite-object");
    reveal_strlit("general.text");
    reveal_strlit("general.plain-text");
    reveal_strlit("general.html");
    reveal_strlit("general.hyperlink");
    reveal_strlit("general.xml");
    reveal_strlit("general.source-code");
    reveal_strlit("general.script");
    reveal_strlit("general.shell-script");
    reveal_strlit("general.csh-script");
    reveal_strlit("general.perl-script");
    reveal_strlit("general.php-script");
    reveal_strlit("general.python-script");
    reveal_strlit("general.ruby-script");
    reveal_strlit("general.type-script");
    reveal_strlit("general.java-script");
    reveal_strlit("general.c-header");
    reveal_strlit("general.c-source");
    reveal_strlit("general.c-plus-plus-header");
    reveal_strlit("general.c-plus-plus-source");
    reveal_strlit("general.java-source");
    reveal_strlit("general.ebook");
    reveal_strlit("general.epub");
    reveal_strlit("com.amazon.azw");
    reveal_strlit("com.amazon.azw3");
    reveal_strlit("com.amazon.kfx");
    reveal_strlit("com.amazon.mobi");
    reveal_strlit("general.media");
    reveal_strlit("general.image");
    reveal_strlit("general.jpeg");
    reveal_strlit("general.png");
    reveal_strlit("general.raw-image");
    reveal_strlit("general.tiff");
    reveal_strlit("com.microsoft.bmp");
    reveal_strlit("com.microsoft.ico");
    reveal_strlit("com.adobe.photoshop-image");
    reveal_strlit("com.adobe.illustrator.ai-image");
    reveal_strlit("com.microsoft.word.doc");
    reveal_strlit("com.microsoft.excel.xls");
    reveal_strlit("com.microsoft.powerpoint.ppt");
    reveal_strlit("com.adobe.pdf");
    reveal_strlit("com.adobe.postscript");
    reveal_strlit("com.adobe.encapsulated-postscript");
    reveal_strlit("general.video");
    reveal_strlit("general.avi");
    reveal_strlit("general.mpeg");
    reveal_strlit("general.mpeg-4");
    reveal_strlit("general.3gpp");
    reveal_strlit("general.3gpp2");
    reveal_strlit("com.microsoft.windows-media-wm");
    reveal_strlit("com.microsoft.windows-media-wmv");
    reveal_strlit("com.microsoft.windows-media-wmp");
    reveal_strlit("general.audio");
    reveal_strlit("general.aac");
    reveal_strlit("general.aiff");
    reveal_strlit("general.alac");
    reveal_strlit("general.flac");
    reveal_strlit("general.mp3");
    reveal_strlit("general.ogg");
    reveal_strlit("general.pcm");
    reveal_strlit("com.microsoft.windows-media-wma");
    reveal_strlit("com.microsoft.waveform-audio");
    reveal_strlit("com.microsoft.windows-media-wmx");
    reveal_strlit("com.microsoft.windows-media-wvx");
    reveal_strlit("com.microsoft.windows-media-wax");
    reveal_strlit("general.file");
    reveal_strlit("general.directory");
    reveal_strlit("general.folder");
    reveal_strlit("general.symlink");
    reveal_strlit("general.archive");
    reveal_strlit("general.bz2-archive");
    reveal_strlit("general.disk-image");
    reveal_strlit("general.tar-archive");
    assert("general.entity"@.len() == 14);
    assert("general.object"@.len() == 14);
    assert("general.composite-object"@.len() == 24);
    assert("general.text"@.len() == 12);
    assert("general.plain-text"@.len() == 18);
    assert("general.html"@.len() == 12);
    assert("general.hyperlink"@.len() == 17);
    assert("general.xml"@.len() == 11);
    assert("general.source-code"@.len() == 19);
    assert("general.script"@.len() == 14);
    assert("general.shell-script"@.len() == 20);
    assert("general.csh-script"@.len() == 18);
    assert("general.perl-script"@.len() == 19);
    assert("general.php-script"@.len() == 18);
    assert("general.python-script"@.len() == 21);
    assert("general.ruby-script"@.len() == 19);
    assert("general.type-script"@.len() == 19);
    assert("general.java-script"@.len() == 19);
    assert("general.c-header"@.len() == 16);
    assert("general.c-source"@.len() == 16);
    assert("general.c-plus-plus-header"@.len() == 26);
    assert("general.c-plus-plus-source"@.len() == 26);
    assert("general.java-source"@.len() == 19);
    assert("general.ebook"@.len() == 13);
    assert("general.epub"@.len() == 12);
    assert("com.amazon.azw"@.len() == 14);
    assert("com.amazon.azw3"@.len() == 15);
    assert("com.amazon.kfx"@.len() == 14);
    assert("com.amazon.mobi"@.len() == 15);
    assert("general.media"@.len() == 13);
    assert("general.image"@.len() == 13);
    assert("general.jpeg"@.len() == 12);
    assert("general.png"@.len() == 11);
    assert("general.raw-image"@.len() == 17);
    assert("general.tiff"@.len() == 12);
    assert("com.microsoft.bmp"@.len() == 17);
    assert("com.microsoft.ico"@.len() == 17);
    assert("com.adobe.photoshop-image"@.len() == 25);
    assert("com.adobe.illustrator.ai-image"@.len() == 30);
    assert("com.microsoft.word.doc"@.len() == 22);
    assert("com.microsoft.excel.xls"@.len() == 23);
    assert("com.microsoft.powerpoint.ppt"@.len() == 28);
    assert("com.adobe.pdf"@.len() == 13);
    assert("com.adobe.postscript"@.len() == 20);
    assert("com.adobe.encapsulated-postscript"@.len() == 33);
    assert("general.video"@.len() == 13);
    assert("general.avi"@.len() == 11);
    assert("general.mpeg"@.len() == 12);
    assert("general.mpeg-4"@.len() == 14);
    assert("general.3gpp"@.len() == 12);
    assert("general.3gpp2"@.len() == 13);
    assert("com.microsoft.windows-media-wm"@.len() == 30);
    assert("com.microsoft.windows-media-wmv"@.len() == 31);
    assert("com.microsoft.windows-media-wmp"@.len() == 31);
    assert("general.audio"@.len() == 13);
    assert("general.aac"@.len() == 11);
    assert("general.aiff"@.len() == 12);
    assert("general.alac"@.len() == 12);
    assert("general.flac"@.len() == 12);
    assert("general.mp3"@.len() == 11);
    assert("general.ogg"@.len() == 11);
    assert("general.pcm"@.len() == 11);
    assert("com.microsoft.windows-media-wma"@.len() == 31);
    assert("com.microsoft.waveform-audio"@.len() == 28);
    assert("com.microsoft.windows-media-wmx"@.len() == 31);
    assert("com.microsoft.windows-media-wvx"@.len() == 31);
    assert("com.microsoft.windows-media-wax"@.len() == 31);
    assert("general.file"@.len() == 12);
    assert("general.directory"@.len() == 17);
    assert("general.folder"@.len() == 14);
    assert("general.symlink"@.len() == 15);
    assert("general.archive"@.len() == 15);
    assert("general.bz2-archive"@.len() == 19);
    assert("general.disk-image"@.len() == 18);
    assert("general.tar-archive"@.len() == 19);
    assert("general.entity"@[0] == 'g');
    assert("general.entity"@[8] == 'e');
    assert("general.object"@[0] == 'g');
    assert("general.object"@[8] == 'o');
    assert("general.composite-object"@[0] == 'g');
    assert("general.text"@[8] == 't');
    assert("general.text"@[9] == 'e');
    assert("general.plain-text"@[0] == 'g');
    assert("general.plain-text"@[8] == 'p');
    assert("general.plain-text"@[9] == 'l');
    assert("general.html"@[8] == 'h');
    assert("general.hyperlink"@[0] == 'g');
    assert("general.hyperlink"@[8] == 'h');
    assert("general.xml"@[8] == 'x');
    assert("general.source-code"@[0] == 'g');
    assert("general.source-code"@[8] == 's');
    assert("general.script"@[0] == 'g');
    assert("general.script"@[8] == 's');
    assert("general.shell-script"@[0] == 'g');
    assert("general.shell-script"@[8] == 's');
    assert("general.csh-script"@[0] == 'g');
    assert("general.csh-script"@[8] == 'c');
    assert("general.perl-script"@[0] == 'g');
    assert("general.perl-script"@[8] == 'p');
    assert("general.php-script"@[0] == 'g');
    assert("general.php-script"@[8] == 'p');
    assert("general.php-script"@[9] == 'h');
    assert("general.python-script"@[0] == 'g');
    assert("general.python-script"@[8] == 'p');
    assert("general.ruby-script"@[0] == 'g');
    assert("general.ruby-script"@[8] == 'r');
    assert("general.type-script"@[0] == 'g');
    assert("general.type-script"@[8] == 't');
    assert("general.type-script"@[9] == 'y');
    assert("general.java-script"@[0] == 'g');
    assert("general.java-script"@[8] == 'j');
    assert("general.java-script"@[14] == 'c');
    assert("general.c-header"@[0] == 'g');
    assert("general.c-header"@[8] == 'c');
    assert("general.c-header"@[9] == '-');
    assert("general.c-header"@[10] == 'h');
    assert("general.c-source"@[0] == 'g');
    assert("general.c-source"@[8] == 'c');
    assert("general.c-source"@[9] == '-');
    assert("general.c-source"@[10] == 's');
    assert("general.c-plus-plus-header"@[0] == 'g');
    assert("general.c-plus-plus-header"@[20] == 'h');
    assert("general.c-plus-plus-source"@[0] == 'g');
    assert("general.c-plus-plus-source"@[20] == 's');
    assert("general.java-source"@[0] == 'g');
    assert("general.java-source"@[8] == 'j');
    assert("general.java-source"@[14] == 'o');
    assert("general.ebook"@[0] == 'g');
    assert("general.ebook"@[8] == 'e');
    assert("general.epub"@[8] == 'e');
    assert("com.amazon.azw"@[0] == 'c');
    assert("com.amazon.azw"@[4] == 'a');
    assert("com.amazon.azw"@[11] == 'a');
    assert("com.amazon.azw3"@[0] == 'c');
    assert("com.amazon.azw3"@[11] == 'a');
    assert("com.amazon.kfx"@[0] == 'c');
    assert("com.amazon.kfx"@[4] == 'a');
    assert("com.amazon.kfx"@[11] == 'k');
    assert("com.amazon.mobi"@[0] == 'c');
    assert("com.amazon.mobi"@[11] == 'm');
    assert("general.media"@[0] == 'g');
    assert("general.media"@[8] == 'm');
    assert("general.image"@[0] == 'g');
    assert("general.image"@[8] == 'i');
    assert("general.jpeg"@[8] == 'j');
    assert("general.png"@[8] == 'p');
    assert("general.png"@[9] == 'n');
    assert("general.raw-image"@[0] == 'g');
    assert("general.raw-image"@[8] == 'r');
    assert("general.tiff"@[8] == 't');
    assert("general.tiff"@[9] == 'i');
    assert("com.microsoft.bmp"@[0] == 'c');
    assert("com.microsoft.bmp"@[4] == 'm');
    assert("com.microsoft.bmp"@[14] == 'b');
    assert("com.microsoft.ico"@[0] == 'c');
    assert("com.microsoft.ico"@[4] == 'm');
    assert("com.microsoft.ico"@[14] == 'i');
    assert("com.adobe.photoshop-image"@[0] == 'c');
    assert("com.adobe.photoshop-image"@[11] == 'h');
    assert("com.adobe.illustrator.ai-image"@[0] == 'c');
    assert("com.adobe.illustrator.ai-image"@[4] == 'a');
    assert("com.microsoft.word.doc"@[0] == 'c');
    assert("com.microsoft.excel.xls"@[0] == 'c');
    assert("com.microsoft.powerpoint.ppt"@[14] == 'p');
    assert("com.adobe.pdf"@[0] == 'c');
    assert("com.adobe.pdf"@[4] == 'a');
    assert("com.adobe.postscript"@[0] == 'c');
    assert("com.adobe.postscript"@[4] == 'a');
    assert("com.adobe.encapsulated-postscript"@[4] == 'a');
    assert("general.video"@[0] == 'g');
    assert("general.video"@[8] == 'v');
    assert("general.video"@[9] == 'i');
    assert("general.avi"@[8] == 'a');
    assert("general.avi"@[9] == 'v');
    assert("general.mpeg"@[8] == 'm');
    assert("general.mpeg-4"@[0] == 'g');
    assert("general.mpeg-4"@[8] == 'm');
    assert("general.3gpp"@[8] == '3');
    assert("general.3gpp2"@[0] == 'g');
    assert("general.3gpp2"@[8] == '3');
    assert("com.microsoft.windows-media-wm"@[0] == 'c');
    assert("com.microsoft.windows-media-wm"@[4] == 'm');
    assert("com.microsoft.windows-media-wmv"@[0] == 'c');
    assert("com.microsoft.windows-media-wmv"@[29] == 'm');
    assert("com.microsoft.windows-media-wmv"@[30] == 'v');
    assert("com.microsoft.windows-media-wmp"@[0] == 'c');
    assert("com.microsoft.windows-media-wmp"@[29] == 'm');
    assert("com.microsoft.windows-media-wmp"@[30] == 'p');
    assert("general.audio"@[0] == 'g');
    assert("general.audio"@[8] == 'a');
    assert("general.aac"@[8] == 'a');
    assert("general.aac"@[9] == 'a');
    assert("general.aiff"@[8] == 'a');
    assert("general.aiff"@[9] == 'i');
    assert("general.alac"@[8] == 'a');
    assert("general.alac"@[9] == 'l');
    assert("general.flac"@[8] == 'f');
    assert("general.flac"@[9] == 'l');
    assert("general.mp3"@[8] == 'm');
    assert("general.ogg"@[8] == 'o');
    assert("general.pcm"@[8] == 'p');
    assert("general.pcm"@[9] == 'c');
    assert("com.microsoft.windows-media-wma"@[0] == 'c');
    assert("com.microsoft.windows-media-wma"@[29] == 'm');
    assert("com.microsoft.windows-media-wma"@[30] == 'a');
    assert("com.microsoft.waveform-audio"@[14] == 'w');
    assert("com.microsoft.windows-media-wmx"@[0] == 'c');
    assert("com.microsoft.windows-media-wmx"@[29] == 'm');
    assert("com.microsoft.windows-media-wmx"@[30] == 'x');
    assert("com.microsoft.windows-media-wvx"@[0] == 'c');
    assert("com.microsoft.windows-media-wvx"@[29] == 'v');
    assert("com.microsoft.windows-media-wax"@[0] == 'c');
    assert("com.microsoft.windows-media-wax"@[29] == 'a');
    assert("general.file"@[8] == 'f');
    assert("general.file"@[9] == 'i');
    assert("general.directory"@[0] == 'g');
    assert("general.directory"@[8] == 'd');
    assert("general.folder"@[0] == 'g');
    assert("general.folder"@[8] == 'f');
    assert("general.symlink"@[0] == 'g');
    assert("general.symlink"@[8] == 's');
    assert("general.archive"@[0] == 'g');
    assert("general.archive"@[8] == 'a');
    assert("general.bz2-archive"@[0] == 'g');
    assert("general.bz2-archive"@[8] == 'b');
    assert("general.disk-image"@[0] == 'g');
    assert("general.disk-image"@[8] == 'd');
    assert("general.tar-archive"@[0] == 'g');
    assert("general.tar-archive"@[8] == 't');
    assert("general.tar-archive"@[9] == 'a');
}

#[verifier::rlimit(100)]
proof fn round_trip_chunk_3()
    ensures
        UniformDataType::spec_known_of_wire((UniformDataType::ZipArchive).wire_spec())
            == Some(UniformDataType::ZipArchive),
        UniformDataType::spec_known_of_wire((UniformDataType::JavaArchive).wire_spec())
            == Some(UniformDataType::JavaArchive),
        UniformDataType::spec_known_of_wire((UniformDataType::GnuTarArchive).wire_spec())
            == Some(UniformDataType::GnuTarArchive),
        UniformDataType::spec_known_of_wire((UniformDataType::GnuZipArchive).wire_spec())
            == Some(UniformDataType::GnuZipArchive),
        UniformDataType::spec_known_of_wire((UniformDataType::GnuZipTarArchive).wire_spec())
            == Some(UniformDataType::GnuZipTarArchive),
        UniformDataType::spec_known_of_wire((UniformDataType::Calendar).wire_spec())
            == Some(UniformDataType::Calendar),
        UniformDataType::spec_known_of_wire((UniformDataType::Contact).wire_spec())
            == Some(UniformDataType::Contact),
        UniformDataType::spec_known_of_wire((UniformDataType::Database).wire_spec())
            == Some(UniformDataType::Database),
        UniformDataType::spec_known_of_wire((UniformDataType::Message).wire_spec())
            == Some(UniformDataType::Message),
        UniformDataType::spec_known_of_wire((UniformDataType::Vcard).wire_spec())
            == Some(UniformDataType::Vcard),
        UniformDataType::spec_known_of_wire((UniformDataType::Navigation).wire_spec())
            == Some(UniformDataType::Navigation),
        UniformDataType::spec_known_of_wire((UniformDataType::Location).wire_spec())
            == Some(UniformDataType::Location),
        UniformDataType::spec_known_of_wire((UniformDataType::OpenHarmonyForm).wire_spec())
            == Some(UniformDataType::OpenHarmonyForm),
        UniformDataType::spec_known_of_wire((UniformDataType::OpenHarmonyAppItem).wire_spec())
            == Some(UniformDataType::OpenHarmonyAppItem),
        UniformDataType::spec_known_of_wire((UniformDataType::OpenHarmonyPixelMap).wire_spec())
            == Some(UniformDataType::OpenHarmonyPixelMap),
        UniformDataType::spec_known_of_wire((UniformDataType::OpenHarmonyAtomicService).wire_spec())
            == Some(UniformDataType::OpenHarmonyAtomicService),
        UniformDataType::spec_known_of_wire((UniformDataType::OpenHarmonyPackage).wire_spec())
            == Some(UniformDataType::OpenHarmonyPackage),
        UniformDataType::spec_known_of_wire((UniformDataType::OpenHarmonyHap).wire_spec())
            == Some(UniformDataType::OpenHarmonyHap),
        UniformDataType::spec_known_of_wire((UniformDataType::Smil).wire_spec())
            == Some(UniformDataType::Smil),
        UniformDataType::spec_known_of_wire((UniformDataType::Markdown).wire_spec())
            == Some(UniformDataType::Markdown),
        UniformDataType::spec_known_of_wire((UniformDataType::Fax).wire_spec())
            == Some(UniformDataType::Fax),
        UniformDataType::spec_known_of_wire((UniformDataType::JfxFax).wire_spec())
            == Some(UniformDataType::JfxFax),
        UniformDataType::spec_known_of_wire((UniformDataType::EfxFax).wire_spec())
            == Some(UniformDataType::EfxFax),
        UniformDataType::spec_known_of_wire((UniformDataType::XbitmapImage).wire_spec())
            == Some(UniformDataType::XbitmapImage),
        UniformDataType::spec_known_of_wire((UniformDataType::TgaImage).wire_spec())
            == Some(UniformDataType::TgaImage),
{
    reveal_strlit("general.entity");
    reveal_strlit("general.object");
    reveal_strlit("general.composite-object");
    reveal_strlit("general.text");
    reveal_strlit("general.plain-text");
    reveal_strlit("general.html");
    reveal_strlit("general.hyperlink");
    reveal_strlit("general.xml");
    reveal_strlit("general.source-code");
    reveal_strlit("general.script");
    reveal_strlit("general.shell-script");
    reveal_strlit("general.csh-script");
    reveal_strlit("general.perl-script");
    reveal_strlit("general.php-script");
    reveal_strlit("general.python-script");
    reveal_strlit("general.ruby-script");
    reveal_strlit("general.type-script");
    reveal_strlit("general.java-script");
    reveal_strlit("general.c-header");
    reveal_strlit("general.c-source");
    reveal_strlit("general.c-plus-plus-header");
    reveal_strlit("general.c-plus-plus-source");
    reveal_strlit("general.java-source");
    reveal_strlit("general.ebook");
    reveal_strlit("general.epub");
    reveal_strlit("com.amazon.azw");
    reveal_strlit("com.amazon.azw3");
    reveal_strlit("com.amazon.kfx");
    reveal_strlit("com.amazon.mobi");
    reveal_strlit("general.media");
    reveal_strlit("general.image");
    reveal_strlit("general.jpeg");
    reveal_strlit("general.png");
    reveal_strlit("general.raw-image");
    reveal_strlit("general.tiff");
    reveal_strlit("com.microsoft.bmp");
    reveal_strlit("com.microsoft.ico");
    reveal_strlit("com.adobe.photoshop-image");
    reveal_strlit("com.adobe.illustrator.ai-image");
    reveal_strlit("com.microsoft.word.doc");
    reveal_strlit("com.microsoft.excel.xls");
    reveal_strlit("com.microsoft.powerpoint.ppt");
    reveal_strlit("com.adobe.pdf");
    reveal_strlit("com.adobe.postscript");
    reveal_strlit("com.adobe.encapsulated-postscript");
    reveal_strlit("general.video");
    reveal_strlit("general.avi");
    reveal_strlit("general.mpeg");
    reveal_strlit("general.mpeg-4");
    reveal_strlit("general.3gpp");
    reveal_strlit("general.3gpp2");
    reveal_strlit("com.microsoft.windows-media-wm");
    reveal_strlit("com.microsoft.windows-media-wmv");
    reveal_strlit("com.microsoft.windows-media-wmp");
    reveal_strlit("general.audio");
    reveal_strlit("general.aac");
    reveal_strlit("general.aiff");
    reveal_strlit("general.alac");
    reveal_strlit("general.flac");
    reveal_strlit("general.mp3");
    reveal_strlit("general.ogg");
    reveal_strlit("general.pcm");
    reveal_strlit("com.microsoft.windows-media-wma");
    reveal_strlit("com.microsoft.waveform-audio");
    reveal_strlit("com.microsoft.windows-media-wmx");
    reveal_strlit("com.microsoft.windows-media-wvx");
    reveal_strlit("com.microsoft.windows-media-wax");
    reveal_strlit("general.file");
    reveal_strlit("general.directory");
    reveal_strlit("general.folder");
    reveal_strlit("general.symlink");
    reveal_strlit("general.archive");
    reveal_strlit("general.bz2-archive");
    reveal_strlit("general.disk-image");
    reveal_strlit("general.tar-archive");
    reveal_strlit("general.zip-archive");
    reveal_strlit("com.sun.java-archive");
    reveal_strlit("org.gnu.gnu-tar-archive");
    reveal_strlit("org.gnu.gnu-zip-archive");
    reveal_strlit("org.gnu.gnu-zip-tar-archive");
    reveal_strlit("general.calendar");
    reveal_strlit("general.contact");
    reveal_strlit("general.database");
    reveal_strlit("general.message");
    reveal_strlit("general.vcard");
    reveal_strlit("general.navigation");
    reveal_strlit("general.location");
    reveal_strlit("openharmony.form");
    reveal_strlit("openharmony.app-item");
    reveal_strlit("openharmony.pixel-map");
    reveal_strlit("openharmony.atomic-service");
    reveal_strlit("openharmony.package");
    reveal_strlit("openharmony.hap");
    reveal_strlit("com.real.smil");
    reveal_strlit("general.markdown");
    reveal_strlit("general.fax");
    reveal_strlit("com.j2.jfx-fax");
    reveal_strlit("com.js.efx-fax");
    reveal_strlit("general.xbitmap-image");
    reveal_strlit("com.truevision.tga-image");
    assert("general.entity"@.len() == 14);
    assert("general.object"@.len() == 14);
    assert("general.composite-object"@.len() == 24);
    assert("general.text"@.len() == 12);
    assert("general.plain-text"@.len() == 18);
    assert("general.html"@.len() == 12);
    assert("general.hyperlink"@.len() == 17);
    assert("general.xml"@.len() == 11);
    assert("general.source-code"@.len() == 19);
    assert("general.script"@.len() == 14);
    assert("general.shell-script"@.len() == 20);
    assert("general.csh-script"@.len() == 18);
    assert("general.perl-script"@.len() == 19);
    assert("general.php-script"@.len() == 18);
    assert("general.python-script"@.len() == 21);
    assert("general.ruby-script"@.len() == 19);
    assert("general.type-script"@.len() == 19);
    assert("general.java-script"@.len() == 19);
    assert("general.c-header"@.len() == 16);
    assert("general.c-source"@.len() == 16);
    assert("general.c-plus-plus-header"@.len() == 26);
    assert("general.c-plus-plus-source"@.len() == 26);
    assert("general.java-source"@.len() == 19);
    assert("general.ebook"@.len() == 13);
    assert("general.epub"@.len() == 12);
    assert("com.amazon.azw"@.len() == 14);
    assert("com.amazon.azw3"@.len() == 15);
    assert("com.amazon.kfx"@.len() == 14);
    assert("com.amazon.mobi"@.len() == 15);
    assert("general.media"@.len() == 13);
    assert("general.image"@.len() == 13);
    assert("general.jpeg"@.len() == 12);
    assert("general.png"@.len() == 11);
    assert("general.raw-image"@.len() == 17);
    assert("general.tiff"@.len() == 12);
    assert("com.microsoft.bmp"@.len() == 17);
    assert("com.microsoft.ico"@.len() == 17);
    assert("com.adobe.photoshop-image"@.len() == 25);
    assert("com.adobe.illustrator.ai-image"@.len() == 30);
    assert("com.microsoft.word.doc"@.len() == 22);
    assert("com.microsoft.excel.xls"@.len() == 23);
    assert("com.microsoft.powerpoint.ppt"@.len() == 28);
    assert("com.adobe.pdf"@.len() == 13);
    assert("com.adobe.postscript"@.len() == 20);
    assert("com.adobe.encapsulated-postscript"@.len() == 33);
    assert("general.video"@.len() == 13);
    assert("general.avi"@.len() == 11);
    assert("general.mpeg"@.len() == 12);
    assert("general.mpeg-4"@.len() == 14);
    assert("general.3gpp"@.len() == 12);
    assert("general.3gpp2"@.len() == 13);
    assert("com.microsoft.windows-media-wm"@.len() == 30);
    assert("com.microsoft.windows-media-wmv"@.len() == 31);
    assert("com.microsoft.windows-media-wmp"@.len() == 31);
    assert("general.audio"@.len() == 13);
    assert("general.aac"@.len() == 11);
    assert("general.aiff"@.len() == 12);
    assert("general.alac"@.len() == 12);
    assert("general.flac"@.len() == 12);
    assert("general.mp3"@.len() == 11);
    assert("general.ogg"@.len() == 11);
    assert("general.pcm"@.len() == 11);
    assert("com.microsoft.windows-media-wma"@.len() == 31);
    assert("com.microsoft.waveform-audio"@.len() == 28);
    assert("com.microsoft.windows-media-wmx"@.len() == 31);
    assert("com.microsoft.windows-media-wvx"@.len() == 31);
    assert("com.microsoft.windows-media-wax"@.len() == 31);
    assert("general.file"@.len() == 12);
    assert("general.directory"@.len() == 17);
    assert("general.folder"@.len() == 14);
    assert("general.symlink"@.len() == 15);
    assert("general.archive"@.len() == 15);
    assert("general.bz2-archive"@.len() == 19);
    assert("general.disk-image"@.len() == 18);
    assert("general.tar-archive"@.len() == 19);
    assert("general.zip-archive"@.len() == 19);
    assert("com.sun.java-archive"@.len() == 20);
    assert("org.gnu.gnu-tar-archive"@.len() == 23);
    assert("org.gnu.gnu-zip-archive"@.len() == 23);
    assert("org.gnu.gnu-zip-tar-archive"@.len() == 27);
    assert("general.calendar"@.len() == 16);
    assert("general.contact"@.len() == 15);
    assert("general.database"@.len() == 16);
    assert("general.message"@.len() == 15);
    assert("general.vcard"@.len() == 13);
    assert("general.navigation"@.len() == 18);
    assert("general.location"@.len() == 16);
    assert("openharmony.form"@.len() == 16);
    assert("openharmony.app-item"@.len() == 20);
    assert("openharmony.pixel-map"@.len() == 21);
    assert("openharmony.atomic-service"@.len() == 26);
    assert("openharmony.package"@.len() == 19);
    assert("openharmony.hap"@.len() == 15);
    assert("com.real.smil"@.len() == 13);
    assert("general.markdown"@.len() == 16);
    assert("general.fax"@.len() == 11);
    assert("com.j2.jfx-fax"@.len() == 14);
    assert("com.js.efx-fax"@.len() == 14);
    assert("general.xbitmap-image"@.len() == 21);
    assert("com.truevision.tga-image"@.len() == 24);
    assert("general.entity"@[0] == 'g');
    assert("general.entity"@[8] == 'e');
    assert("general.object"@[0] == 'g');
    assert("general.object"@[8] == 'o');
    assert("general.composite-object"@[0] == 'g');
    assert("general.text"@[8] == 't');
    assert("general.text"@[9] == 'e');
    assert("general.plain-text"@[0] == 'g');
    assert("general.plain-text"@[8] == 'p');
    assert("general.plain-text"@[9] == 'l');
    assert("general.html"@[8] == 'h');
    assert("general.hyperlink"@[0] == 'g');
    assert("general.hyperlink"@[8] == 'h');
    assert("general.xml"@[8] == 'x');
    assert("general.source-code"@[0] == 'g');
    assert("general.source-code"@[8] == 's');
    assert("general.script"@[0] == 'g');
    assert("general.script"@[8] == 's');
    assert("general.shell-script"@[0] == 'g');
    assert("general.shell-script"@[8] == 's');
    assert("general.csh-script"@[0] == 'g');
    assert("general.csh-script"@[8] == 'c');
    assert("general.perl-script"@[0] == 'g');
    assert("general.perl-script"@[8] == 'p');
    assert("general.php-script"@[0] == 'g');
    assert("general.php-script"@[8] == 'p');
    assert("general.php-script"@[9] == 'h');
    assert("general.python-script"@[0] == 'g');
    assert("general.python-script"@[8] == 'p');
    assert("general.ruby-script"@[0] == 'g');
    assert("general.ruby-script"@[8] == 'r');
    assert("general.type-script"@[0] == 'g');
    assert("general.type-script"@[8] == 't');
    assert("general.type-script"@[9] == 'y');
    assert("general.java-script"@[0] == 'g');
    assert("general.java-script"@[8] == 'j');
    assert("general.java-script"@[14] == 'c');
    assert("general.c-header"@[0] == 'g');
    assert("general.c-header"@[8] == 'c');
    assert("general.c-header"@[9] == '-');
    assert("general.c-header"@[10] == 'h');
    assert("general.c-source"@[0] == 'g');
    assert("general.c-source"@[8] == 'c');
    assert("general.c-source"@[9] == '-');
    assert("general.c-source"@[10] == 's');
    assert("general.c-plus-plus-header"@[0] == 'g');
    assert("general.c-plus-plus-header"@[20] == 'h');
    assert("general.c-plus-plus-source"@[0] == 'g');
    assert("general.c-plus-plus-source"@[20] == 's');
    assert("general.java-source"@[0] == 'g');
    assert("general.java-source"@[8] == 'j');
    assert("general.java-source"@[14] == 'o');
    assert("general.ebook"@[0] == 'g');
    assert("general.ebook"@[8] == 'e');
    assert("general.epub"@[8] == 'e');
    assert("com.amazon.azw"@[0] == 'c');
    assert("com.amazon.azw"@[4] == 'a');
    assert("com.amazon.azw"@[11] == 'a');
    assert("com.amazon.azw3"@[0] == 'c');
    assert("com.amazon.azw3"@[11] == 'a');
    assert("com.amazon.kfx"@[0] == 'c');
    assert("com.amazon.kfx"@[4] == 'a');
    assert("com.amazon.kfx"@[11] == 'k');
    assert("com.amazon.mobi"@[0] == 'c');
    assert("com.amazon.mobi"@[11] == 'm');
    assert("general.media"@[0] == 'g');
    assert("general.media"@[8] == 'm');
    assert("general.image"@[0] == 'g');
    assert("general.image"@[8] == 'i');
    assert("general.jpeg"@[8] == 'j');
    assert("general.png"@[8] == 'p');
    assert("general.png"@[9] == 'n');
    assert("general.raw-image"@[0] == 'g');
    assert("general.raw-image"@[8] == 'r');
    assert("general.tiff"@[8] == 't');
    assert("general.tiff"@[9] == 'i');
    assert("com.microsoft.bmp"@[0] == 'c');
    assert("com.microsoft.bmp"@[4] == 'm');
    assert("com.microsoft.bmp"@[14] == 'b');
    assert("com.microsoft.ico"@[0] == 'c');
    assert("com.microsoft.ico"@[4] == 'm');
    assert("com.microsoft.ico"@[14] == 'i');
    assert("com.adobe.photoshop-image"@[0] == 'c');
    assert("com.adobe.photoshop-image"@[11] == 'h');
    assert("com.adobe.illustrator.ai-image"@[0] == 'c');
    assert("com.adobe.illustrator.ai-image"@[4] == 'a');
    assert("com.microsoft.word.doc"@[0] == 'c');
    assert("com.microsoft.excel.xls"@[0] == 'c');
    assert("com.microsoft.powerpoint.ppt"@[14] == 'p');
    assert("com.adobe.pdf"@[0] == 'c');
    assert("com.adobe.pdf"@[4] == 'a');
    assert("com.adobe.postscript"@[0] == 'c');
    assert("com.adobe.postscript"@[4] == 'a');
    assert("com.adobe.encapsulated-postscript"@[4] == 'a');
    assert("general.video"@[0] == 'g');
    assert("general.video"@[8] == 'v');
    assert("general.video"@[9] == 'i');
    assert("general.avi"@[8] == 'a');
    assert("general.avi"@[9] == 'v');
    assert("general.mpeg"@[8] == 'm');
    assert("general.mpeg-4"@[0] == 'g');
    assert("general.mpeg-4"@[8] == 'm');
    assert("general.3gpp"@[8] == '3');
    assert("general.3gpp2"@[0] == 'g');
    assert("general.3gpp2"@[8] == '3');
    assert("com.microsoft.windows-media-wm"@[0] == 'c');
    assert("com.microsoft.windows-media-wm"@[4] == 'm');
    assert("com.microsoft.windows-media-wmv"@[0] == 'c');
    assert("com.microsoft.windows-media-wmv"@[29] == 'm');
    assert("com.microsoft.windows-media-wmv"@[30] == 'v');
    assert("com.microsoft.windows-media-wmp"@[0] == 'c');
    assert("com.microsoft.windows-media-wmp"@[29] == 'm');
    assert("com.microsoft.windows-media-wmp"@[30] == 'p');
    assert("general.audio"@[0] == 'g');
    assert("general.audio"@[8] == 'a');
    assert("general.aac"@[8] == 'a');
    assert("general.aac"@[9] == 'a');
    assert("general.aiff"@[8] == 'a');
    assert("general.aiff"@[9] == 'i');
    assert("general.alac"@[8] == 'a');
    assert("general.alac"@[9] == 'l');
    assert("general.flac"@[8] == 'f');
    assert("general.flac"@[9] == 'l');
    assert("general.mp3"@[8] == 'm');
    assert("general.ogg"@[8] == 'o');
    assert("general.pcm"@[8] == 'p');
    assert("general.pcm"@[9] == 'c');
    assert("com.microsoft.windows-media-wma"@[0] == 'c');
    assert("com.microsoft.windows-media-wma"@[29] == 'm');
    assert("com.microsoft.windows-media-wma"@[30] == 'a');
    assert("com.microsoft.waveform-audio"@[14] == 'w');
    assert("com.microsoft.windows-media-wmx"@[0] == 'c');
    assert("com.microsoft.windows-media-wmx"@[29] == 'm');
    assert("com.microsoft.windows-media-wmx"@[30] == 'x');
    assert("com.microsoft.windows-media-wvx"@[0] == 'c');
    assert("com.microsoft.windows-media-wvx"@[29] == 'v');
    assert("com.microsoft.windows-media-wax"@[0] == 'c');
    assert("com.microsoft.windows-media-wax"@[29] == 'a');
    assert("general.file"@[8] == 'f');
    assert("general.file"@[9] == 'i');
    assert("general.directory"@[0] == 'g');
    assert("general.directory"@[8] == 'd');
    assert("general.folder"@[0] == 'g');
    assert("general.folder"@[8] == 'f');
    assert("general.symlink"@[0] == 'g');
    assert("general.symlink"@[8] == 's');
    assert("general.archive"@[0] == 'g');
    assert("general.archive"@[8] == 'a');
    assert("general.bz2-archive"@[0] == 'g');
    assert("general.bz2-archive"@[8] == 'b');
    assert("general.disk-image"@[0] == 'g');
    assert("general.disk-image"@[8] == 'd');
    assert("general.tar-archive"@[0] == 'g');
    assert("general.tar-archive"@[8] == 't');
    assert("general.tar-archive"@[9] == 'a');
    assert("general.zip-archive"@[0] == 'g');
    assert("general.zip-archive"@[8] == 'z');
    assert("com.sun.java-archive"@[0] == 'c');
    assert("com.sun.java-archive"@[4] == 's');
    assert("org.gnu.gnu-tar-archive"@[0] == 'o');
    assert("org.gnu.gnu-tar-archive"@[12] == 't');
    assert("org.gnu.gnu-zip-archive"@[0] == 'o');
    assert("org.gnu.gnu-zip-archive"@[12] == 'z');
    assert("org.gnu.gnu-zip-tar-archive"@[4] == 'g');
    assert("general.calendar"@[0] == 'g');
    assert("general.calendar"@[8] == 'c');
    assert("general.calendar"@[9] == 'a');
    assert("general.contact"@[0] == 'g');
    assert("general.contact"@[8] == 'c');
    assert("general.database"@[0] == 'g');
    assert("general.database"@[8] == 'd');
    assert("general.message"@[0] == 'g');
    assert("general.message"@[8] == 'm');
    assert("general.vcard"@[0] == 'g');
    assert("general.vcard"@[8] == 'v');
    assert("general.vcard"@[9] == 'c');
    assert("general.navigation"@[0] == 'g');
    assert("general.navigation"@[8] == 'n');
    assert("general.location"@[0] == 'g');
    assert("general.location"@[8] == 'l');
    assert("openharmony.form"@[0] == 'o');
    assert("openharmony.form"@[12] == 'f');
    assert("openharmony.app-item"@[0] == 'o');
    assert("openharmony.pixel-map"@[0] == 'o');
    assert("openharmony.atomic-service"@[0] == 'o');
    assert("openharmony.atomic-service"@[1] == 'p');
    assert("openharmony.package"@[0] == 'o');
    assert("openharmony.hap"@[0] == 'o');
    assert("com.real.smil"@[0] == 'c');
    assert("com.real.smil"@[4] == 'r');
    assert("general.markdown"@[0] == 'g');
    assert("general.markdown"@[8] == 'm');
    assert("general.fax"@[8] == 'f');
    assert("com.j2.jfx-fax"@[0] == 'c');
    assert("com.j2.jfx-fax"@[4] == 'j');
    assert("com.j2.jfx-fax"@[5] == '2');
    assert("com.js.efx-fax"@[0] == 'c');
    assert("com.js.efx-fax"@[4] == 'j');
    assert("com.js.efx-fax"@[5] == 's');
    assert("general.xbitmap-image"@[0] == 'g');
    assert("general.xbitmap-image"@[8] == 'x');
    assert("com.truevision.tga-image"@[0] == 'c');
    assert("com.truevision.tga-image"@[4] == 't');
}

#[verifier::rlimit(100)]
proof fn round_trip_chunk_4()
    ensures
        UniformDataType::spec_known_of_wire((UniformDataType::SgiImage).wire_spec())
            == Some(UniformDataType::SgiImage),
        UniformDataType::spec_known_of_wire((UniformDataType::OpenexrImage).wire_spec())
            == Some(UniformDataType::OpenexrImage),
        UniformDataType::spec_known_of_wire((UniformDataType::FlashpixImage).wire_spec())
            == Some(UniformDataType::FlashpixImage),
        UniformDataType::spec_known_of_wire((UniformDataType::Realmedia).wire_spec())
            == Some(UniformDataType::Realmedia),
        UniformDataType::spec_known_of_wire((UniformDataType::AuAudio).wire_spec())
            == Some(UniformDataType::AuAudio),
        UniformDataType::spec_known_of_wire((UniformDataType::AifcAudio).wire_spec())
            == Some(UniformDataType::AifcAudio),
        UniformDataType::spec_known_of_wire((UniformDataType::Sd2Audio).wire_spec())
            == Some(UniformDataType::Sd2Audio),
        UniformDataType::spec_known_of_wire((UniformDataType::Realaudio).wire_spec())
            == Some(UniformDataType::Realaudio),
        UniformDataType::spec_known_of_wire((UniformDataType::Openxml).wire_spec())
            == Some(UniformDataType::Openxml),
        UniformDataType::spec_known_of_wire((UniformDataType::WordprocessingmlDocument).wire_spec())
            == Some(UniformDataType::WordprocessingmlDocument),
        UniformDataType::spec_known_of_wire((UniformDataType::SpreadsheetmlSheet).wire_spec())
            == Some(UniformDataType::SpreadsheetmlSheet),
        UniformDataType::spec_known_of_wire((UniformDataType::PresentationmlPresentation).wire_spec())
            == Some(UniformDataType::PresentationmlPresentation),
        UniformDataType::spec_known_of_wire((UniformDataType::Opendocument).wire_spec())
            == Some(UniformDataType::Opendocument),
        UniformDataType::spec_known_of_wire((UniformDataType::OpendocumentText).wire_spec())
            == Some(UniformDataType::OpendocumentText),
        UniformDataType::spec_known_of_wire((UniformDataType::OpendocumentSpreadsheet).wire_spec())
            == Some(UniformDataType::OpendocumentSpreadsheet),
        UniformDataType::spec_known_of_wire((UniformDataType::OpendocumentPresentation).wire_spec())
            == Some(UniformDataType::OpendocumentPresentation),
        UniformDataType::spec_known_of_wire((UniformDataType::OpendocumentGraphics).wire_spec())
            == Some(UniformDataType::OpendocumentGraphics),
        UniformDataType::spec_known_of_wire((UniformDataType::OpendocumentFormula).wire_spec())
            == Some(UniformDataType::OpendocumentFormula),
        UniformDataType::spec_known_of_wire((UniformDataType::StuffitArchive).wire_spec())
            == Some(UniformDataType::StuffitArchive),
        UniformDataType::spec_known_of_wire((UniformDataType::Vcs).wire_spec())
            == Some(UniformDataType::Vcs),
        UniformDataType::spec_known_of_wire((UniformDataType::Ics).wire_spec())
            == Some(UniformDataType::Ics),
        UniformDataType::spec_known_of_wire((UniformDataType::Executable).wire_spec())
            == Some(UniformDataType::Executable),
        UniformDataType::spec_known_of_wire((UniformDataType::PortableExecutable).wire_spec())
            == Some(UniformDataType::PortableExecutable),
        UniformDataType::spec_known_of_wire((UniformDataType::SunJavaClass).wire_spec())
            == Some(UniformDataType::SunJavaClass),
        UniformDataType::spec_known_of_wire((UniformDataType::Font).wire_spec())
            == Some(UniformDataType::Font),
{
    reveal_strlit("general.entity");
    reveal_strlit("general.object");
    reveal_strlit("general.composite-object");
    reveal_strlit("general.text");
    reveal_strlit("general.plain-text");
    reveal_strlit("general.html");
    reveal_strlit("general.hyperlink");
    reveal_strlit("general.xml");
    reveal_strlit("general.source-code");
    reveal_strlit("general.script");
    reveal_strlit("general.shell-script");
    reveal_strlit("general.csh-script");
    reveal_strlit("general.perl-script");
    reveal_strlit("general.php-script");
    reveal_strlit("general.python-script");
    reveal_strlit("general.ruby-script");
    reveal_strlit("general.type-script");
    reveal_strlit("general.java-script");
    reveal_strlit("general.c-header");
    reveal_strlit("general.c-source");
    reveal_strlit("general.c-plus-plus-header");
    reveal_strlit("general.c-plus-plus-source");
    reveal_strlit("general.java-source");
    reveal_strlit("general.ebook");
    reveal_strlit("general.epub");
    reveal_strlit("com.amazon.azw");
    reveal_strlit("com.amazon.azw3");
    reveal_strlit("com.amazon.kfx");
    reveal_strlit("com.amazon.mobi");
    reveal_strlit("general.media");
    reveal_strlit("general.image");
    reveal_strlit("general.jpeg");
    reveal_strlit("general.png");
    reveal_strlit("general.raw-image");
    reveal_strlit("general.tiff");
    reveal_strlit("com.microsoft.bmp");
    reveal_strlit("com.microsoft.ico");
    reveal_strlit("com.adobe.photoshop-image");
    reveal_strlit("com.adobe.illustrator.ai-image");
    reveal_strlit("com.microsoft.word.doc");
    reveal_strlit("com.microsoft.excel.xls");
    reveal_strlit("com.microsoft.powerpoint.ppt");
    reveal_strlit("com.adobe.pdf");
    reveal_strlit("com.adobe.postscript");
    reveal_strlit("com.adobe.encapsulated-postscript");
    reveal_strlit("general.video");
    reveal_strlit("general.avi");
    reveal_strlit("general.mpeg");
    reveal_strlit("general.mpeg-4");
    reveal_strlit("general.3gpp");
    reveal_strlit("general.3gpp2");
    reveal_strlit("com.microsoft.windows-media-wm");
    reveal_strlit("com.microsoft.windows-media-wmv");
    reveal_strlit("com.microsoft.windows-media-wmp");
    reveal_strlit("general.audio");
    reveal_strlit("general.aac");
    reveal_strlit("general.aiff");
    reveal_strlit("general.alac");
    reveal_strlit("general.flac");
    reveal_strlit("general.mp3");
    reveal_strlit("general.ogg");
    reveal_strlit("general.pcm");
    reveal_strlit("com.microsoft.windows-media-wma");
    reveal_strlit("com.microsoft.waveform-audio");
    reveal_strlit("com.microsoft.windows-media-wmx");
    reveal_strlit("com.microsoft.windows-media-wvx");
    reveal_strlit("com.microsoft.windows-media-wax");
    reveal_strlit("general.file");
    reveal_strlit("general.directory");
    reveal_strlit("general.folder");
    reveal_strlit("general.symlink");
    reveal_strlit("general.archive");
    reveal_strlit("general.bz2-archive");
    reveal_strlit("general.disk-image");
    reveal_strlit("general.tar-archive");
    reveal_strlit("general.zip-archive");
    reveal_strlit("com.sun.java-archive");
    reveal_strlit("org.gnu.gnu-tar-archive");
    reveal_strlit("org.gnu.gnu-zip-archive");
    reveal_strlit("org.gnu.gnu-zip-tar-archive");
    reveal_strlit("general.calendar");
    reveal_strlit("general.contact");
    reveal_strlit("general.database");
    reveal_strlit("general.message");
    reveal_strlit("general.vcard");
    reveal_strlit("general.navigation");
    reveal_strlit("general.location");
    reveal_strlit("openharmony.form");
    reveal_strlit("openharmony.app-item");
    reveal_strlit("openharmony.pixel-map");
    reveal_strlit("openharmony.atomic-service");
    reveal_strlit("openharmony.package");
    reveal_strlit("openharmony.hap");
    reveal_strlit("com.real.smil");
    reveal_strlit("general.markdown");
    reveal_strlit("general.fax");
    reveal_strlit("com.j2.jfx-fax");
    reveal_strlit("com.js.efx-fax");
    reveal_strlit("general.xbitmap-image");
    reveal_strlit("com.truevision.tga-image");
    reveal_strlit("com.sgi.sgi-image");
    reveal_strlit("com.ilm.openexr-image");
    reveal_strlit("com.kodak.flashpix.image");
    reveal_strlit("com.real.realmedia");
    reveal_strlit("general.au-audio");
    reveal_strlit("general.aifc-audio");
    reveal_strlit("com.digidesign.sd2-audio");
    reveal_strlit("com.real.realaudio");
    reveal_strlit("org.openxmlformats.openxml");
    reveal_strlit("org.openxmlformats.wordprocessingml.document");
    reveal_strlit("org.openxmlformats.spreadsheetml.sheet");
    reveal_strlit("org.openxmlformats.presentationml.presentation");
    reveal_strlit("org.oasis.opendocument");
    reveal_strlit("org.oasis.opendocument.text");
    reveal_strlit("org.oasis.opendocument.spreadsheet");
    reveal_strlit("org.oasis.opendocument.presentation");
    reveal_strlit("org.oasis.opendocument.graphics");
    reveal_strlit("org.oasis.opendocument.formula");
    reveal_strlit("com.allume.stuffit-archive");
    reveal_strlit("general.vcs");
    reveal_strlit("general.ics");
    reveal_strlit("general.executable");
    reveal_strlit("com.microsoft.portable-executable");
    reveal_strlit("com.sun.java-class");
    reveal_strlit("general.font");
    assert("general.entity"@.len() == 14);
    assert("general.object"@.len() == 14);
    assert("general.composite-object"@.len() == 24);
    assert("general.text"@.len() == 12);
    assert("general.plain-text"@.len() == 18);
    assert("general.html"@.len() == 12);
    assert("general.hyperlink"@.len() == 17);
    assert("general.xml"@.len() == 11);
    assert("general.source-code"@.len() == 19);
    assert("general.script"@.len() == 14);
    assert("general.shell-script"@.len() == 20);
    assert("general.csh-script"@.len() == 18);
    assert("general.perl-script"@.len() == 19);
    assert("general.php-script"@.len() == 18);
    assert("general.python-script"@.len() == 21);
    assert("general.ruby-script"@.len() == 19);
    assert("general.type-script"@.len() == 19);
    assert("general.java-script"@.len() == 19);
    assert("general.c-header"@.len() == 16);
    assert("general.c-source"@.len() == 16);
    assert("general.c-plus-plus-header"@.len() == 26);
    assert("general.c-plus-plus-source"@.len() == 26);
    assert("general.java-source"@.len() == 19);
    assert("general.ebook"@.len() == 13);
    assert("general.epub"@.len() == 12);
    assert("com.amazon.azw"@.len() == 14);
    assert("com.amazon.azw3"@.len() == 15);
    assert("com.amazon.kfx"@.len() == 14);
    assert("com.amazon.mobi"@.len() == 15);
    assert("general.media"@.len() == 13);
    assert("general.image"@.len() == 13);
    assert("general.jpeg"@.len() == 12);
    assert("general.png"@.len() == 11);
    assert("general.raw-image"@.len() == 17);
    assert("general.tiff"@.len() == 12);
    assert("com.microsoft.bmp"@.len() == 17);
    assert("com.microsoft.ico"@.len() == 17);
    assert("com.adobe.photoshop-image"@.len() == 25);
    assert("com.adobe.illustrator.ai-image"@.len() == 30);
    assert("com.microsoft.word.doc"@.len() == 22);
    assert("com.microsoft.excel.xls"@.len() == 23);
    assert("com.microsoft.powerpoint.ppt"@.len() == 28);
    assert("com.adobe.pdf"@.len() == 13);
    assert("com.adobe.postscript"@.len() == 20);
    assert("com.adobe.encapsulated-postscript"@.len() == 33);
    assert("general.video"@.len() == 13);
    assert("general.avi"@.len() == 11);
    assert("general.mpeg"@.len() == 12);
    assert("general.mpeg-4"@.len() == 14);
    assert("general.3gpp"@.len() == 12);
    assert("general.3gpp2"@.len() == 13);
    assert("com.microsoft.windows-media-wm"@.len() == 30);
    assert("com.microsoft.windows-media-wmv"@.len() == 31);
    assert("com.microsoft.windows-media-wmp"@.len() == 31);
    assert("general.audio"@.len() == 13);
    assert("general.aac"@.len() == 11);
    assert("general.aiff"@.len() == 12);
    assert("general.alac"@.len() == 12);
    assert("general.flac"@.len() == 12);
    assert("general.mp3"@.len() == 11);
    assert("general.ogg"@.len() == 11);
    assert("general.pcm"@.len() == 11);
    assert("com.microsoft.windows-media-wma"@.len() == 31);
    assert("com.microsoft.waveform-audio"@.len() == 28);
    assert("com.microsoft.windows-media-wmx"@.len() == 31);
    assert("com.microsoft.windows-media-wvx"@.len() == 31);
    assert("com.microsoft.windows-media-wax"@.len() == 31);
    assert("general.file"@.len() == 12);
    assert("general.directory"@.len() == 17);
    assert("general.folder"@.len() == 14);
    assert("general.symlink"@.len() == 15);
    assert("general.archive"@.len() == 15);
    assert("general.bz2-archive"@.len() == 19);
    assert("general.disk-image"@.len() == 18);
    assert("general.tar-archive"@.len() == 19);
    assert("general.zip-archive"@.len() == 19);
    assert("com.sun.java-archive"@.len() == 20);
    assert("org.gnu.gnu-tar-archive"@.len() == 23);
    assert("org.gnu.gnu-zip-archive"@.len() == 23);
    assert("org.gnu.gnu-zip-tar-archive"@.len() == 27);
    assert("general.calendar"@.len() == 16);
    assert("general.contact"@.len() == 15);
    assert("general.database"@.len() == 16);
    assert("general.message"@.len() == 15);
    assert("general.vcard"@.len() == 13);
    assert("general.navigation"@.len() == 18);
    assert("general.location"@.len() == 16);
    assert("openharmony.form"@.len() == 16);
    assert("openharmony.app-item"@.len() == 20);
    assert("openharmony.pixel-map"@.len() == 21);
    assert("openharmony.atomic-service"@.len() == 26);
    assert("openharmony.package"@.len() == 19);
    assert("openharmony.hap"@.len() == 15);
    assert("com.real.smil"@.len() == 13);
    assert("general.markdown"@.len() == 16);
    assert("general.fax"@.len() == 11);
    assert("com.j2.jfx-fax"@.len() == 14);
    assert("com.js.efx-fax"@.len() == 14);
    assert("general.xbitmap-image"@.len() == 21);
    assert("com.truevision.tga-image"@.len() == 24);
    assert("com.sgi.sgi-image"@.len() == 17);
    assert("com.ilm.openexr-image"@.len() == 21);
    assert("com.kodak.flashpix.image"@.len() == 24);
    assert("com.real.realmedia"@.len() == 18);
    assert("general.au-audio"@.len() == 16);
    assert("general.aifc-audio"@.len() == 18);
    assert("com.digidesign.sd2-audio"@.len() == 24);
    assert("com.real.realaudio"@.len() == 18);
    assert("org.openxmlformats.openxml"@.len() == 26);
    assert("org.openxmlformats.wordprocessingml.document"@.len() == 44);
    assert("org.openxmlformats.spreadsheetml.sheet"@.len() == 38);
    assert("org.openxmlformats.presentationml.presentation"@.len() == 46);
    assert("org.oasis.opendocument"@.len() == 22);
    assert("org.oasis.opendocument.text"@.len() == 27);
    assert("org.oasis.opendocument.spreadsheet"@.len() == 34);
    assert("org.oasis.opendocument.presentation"@.len() == 35);
    assert("org.oasis.opendocument.graphics"@.len() == 31);
    assert("org.oasis.opendocument.formula"@.len() == 30);
    assert("com.allume.stuffit-archive"@.len() == 26);
    assert("general.vcs"@.len() == 11);
    assert("general.ics"@.len() == 11);
    assert("general.executable"@.len() == 18);
    assert("com.microsoft.portable-executable"@.len() == 33);
    assert("com.sun.java-class"@.len() == 18);
    assert("general.font"@.len() == 12);
    assert("general.entity"@[0] == 'g');
    assert("general.entity"@[8] == 'e');
    assert("general.object"@[0] == 'g');
    assert("general.object"@[8] == 'o');
    assert("general.composite-object"@[0] == 'g');
    assert("general.text"@[8] == 't');
    assert("general.text"@[9] == 'e');
    assert("general.plain-text"@[0] == 'g');
    assert("general.plain-text"@[8] == 'p');
    assert("general.plain-text"@[9] == 'l');
    assert("general.html"@[8] == 'h');
    assert("general.hyperlink"@[0] == 'g');
    assert("general.hyperlink"@[8] == 'h');
    assert("general.xml"@[8] == 'x');
    assert("general.source-code"@[0] == 'g');
    assert("general.source-code"@[8] == 's');
    assert("general.script"@[0] == 'g');
    assert("general.script"@[8] == 's');
    assert("general.shell-script"@[0] == 'g');
    assert("general.shell-script"@[8] == 's');
    assert("general.csh-script"@[0] == 'g');
    assert("general.csh-script"@[8] == 'c');
    assert("general.perl-script"@[0] == 'g');
    assert("general.perl-script"@[8] == 'p');
    assert("general.php-script"@[0] == 'g');
    assert("general.php-script"@[8] == 'p');
    assert("general.php-script"@[9] == 'h');
    assert("general.python-script"@[0] == 'g');
    assert("general.python-script"@[8] == 'p');
    assert("general.ruby-script"@[0] == 'g');
    assert("general.ruby-script"@[8] == 'r');
    assert("general.type-script"@[0] == 'g');
    assert("general.type-script"@[8] == 't');
    assert("general.type-script"@[9] == 'y');
    assert("general.java-script"@[0] == 'g');
    assert("general.java-script"@[8] == 'j');
    assert("general.java-script"@[14] == 'c');
    assert("general.c-header"@[0] == 'g');
    assert("general.c-header"@[8] == 'c');
    assert("general.c-header"@[9] == '-');
    assert("general.c-header"@[10] == 'h');
    assert("general.c-source"@[0] == 'g');
    assert("general.c-source"@[8] == 'c');
    assert("general.c-source"@[9] == '-');
    assert("general.c-source"@[10] == 's');
    assert("general.c-plus-plus-header"@[0] == 'g');
    assert("general.c-plus-plus-header"@[20] == 'h');
    assert("general.c-plus-plus-source"@[0] == 'g');
    assert("general.c-plus-plus-source"@[20] == 's');
    assert("general.java-source"@[0] == 'g');
    assert("general.java-source"@[8] == 'j');
    assert("general.java-source"@[14] == 'o');
    assert("general.ebook"@[0] == 'g');
    assert("general.ebook"@[8] == 'e');
    assert("general.epub"@[8] == 'e');
    assert("com.amazon.azw"@[0] == 'c');
    assert("com.amazon.azw"@[4] == 'a');
    assert("com.amazon.azw"@[11] == 'a');
    assert("com.amazon.azw3"@[0] == 'c');
    assert("com.amazon.azw3"@[11] == 'a');
    assert("com.amazon.kfx"@[0] == 'c');
    assert("com.amazon.kfx"@[4] == 'a');
    assert("com.amazon.kfx"@[11] == 'k');
    assert("com.amazon.mobi"@[0] == 'c');
    assert("com.amazon.mobi"@[11] == 'm');
    assert("general.media"@[0] == 'g');
    assert("general.media"@[8] == 'm');
    assert("general.image"@[0] == 'g');
    assert("general.image"@[8] == 'i');
    assert("general.jpeg"@[8] == 'j');
    assert("general.png"@[8] == 'p');
    assert("general.png"@[9] == 'n');
    assert("general.raw-image"@[0] == 'g');
    assert("general.raw-image"@[8] == 'r');
    assert("general.tiff"@[8] == 't');
    assert("general.tiff"@[9] == 'i');
    assert("com.microsoft.bmp"@[0] == 'c');
    assert("com.microsoft.bmp"@[4] == 'm');
    assert("com.microsoft.bmp"@[14] == 'b');
    assert("com.microsoft.ico"@[0] == 'c');
    assert("com.microsoft.ico"@[4] == 'm');
    assert("com.microsoft.ico"@[14] == 'i');
    assert("com.adobe.photoshop-image"@[0] == 'c');
    assert("com.adobe.photoshop-image"@[11] == 'h');
    assert("com.adobe.illustrator.ai-image"@[0] == 'c');
    assert("com.adobe.illustrator.ai-image"@[4] == 'a');
    assert("com.microsoft.word.doc"@[0] == 'c');
    assert("com.microsoft.excel.xls"@[0] == 'c');
    assert("com.microsoft.powerpoint.ppt"@[14] == 'p');
    assert("com.adobe.pdf"@[0] == 'c');
    assert("com.adobe.pdf"@[4] == 'a');
    assert("com.adobe.postscript"@[0] == 'c');
    assert("com.adobe.postscript"@[4] == 'a');
    assert("com.adobe.encapsulated-postscript"@[4] == 'a');
    assert("general.video"@[0] == 'g');
    assert("general.video"@[8] == 'v');
    assert("general.video"@[9] == 'i');
    assert("general.avi"@[8] == 'a');
    assert("general.avi"@[9] == 'v');
    assert("general.mpeg"@[8] == 'm');
    assert("general.mpeg-4"@[0] == 'g');
    assert("general.mpeg-4"@[8] == 'm');
    assert("general.3gpp"@[8] == '3');
    assert("general.3gpp2"@[0] == 'g');
    assert("general.3gpp2"@[8] == '3');
    assert("com.microsoft.windows-media-wm"@[0] == 'c');
    assert("com.microsoft.windows-media-wm"@[4] == 'm');
    assert("com.microsoft.windows-media-wmv"@[0] == 'c');
    assert("com.microsoft.windows-media-wmv"@[29] == 'm');
    assert("com.microsoft.windows-media-wmv"@[30] == 'v');
    assert("com.microsoft.windows-media-wmp"@[0] == 'c');
    assert("com.microsoft.windows-media-wmp"@[29] == 'm');
    assert("com.microsoft.windows-media-wmp"@[30] == 'p');
    assert("general.audio"@[0] == 'g');
    assert("general.audio"@[8] == 'a');
    assert("general.aac"@[8] == 'a');
    assert("general.aac"@[9] == 'a');
    assert("general.aiff"@[8] == 'a');
    assert("general.aiff"@[9] == 'i');
    assert("general.alac"@[8] == 'a');
    assert("general.alac"@[9] == 'l');
    assert("general.flac"@[8] == 'f');
    assert("general.flac"@[9] == 'l');
    assert("general.mp3"@[8] == 'm');
    assert("general.ogg"@[8] == 'o');
    assert("general.pcm"@[8] == 'p');
    assert("general.pcm"@[9] == 'c');
    assert("com.microsoft.windows-media-wma"@[0] == 'c');
    assert("com.microsoft.windows-media-wma"@[29] == 'm');
    assert("com.microsoft.windows-media-wma"@[30] == 'a');
    assert("com.microsoft.waveform-audio"@[14] == 'w');
    assert("com.microsoft.windows-media-wmx"@[0] == 'c');
    assert("com.microsoft.windows-media-wmx"@[29] == 'm');
    assert("com.microsoft.windows-media-wmx"@[30] == 'x');
    assert("com.microsoft.windows-media-wvx"@[0] == 'c');
    assert("com.microsoft.windows-media-wvx"@[29] == 'v');
    assert("com.microsoft.windows-media-wax"@[0] == 'c');
    assert("com.microsoft.windows-media-wax"@[29] == 'a');
    assert("general.file"@[8] == 'f');
    assert("general.file"@[9] == 'i');
    assert("general.directory"@[0] == 'g');
    assert("general.directory"@[8] == 'd');
    assert("general.folder"@[0] == 'g');
    assert("general.folder"@[8] == 'f');
    assert("general.symlink"@[0] == 'g');
    assert("general.symlink"@[8] == 's');
    assert("general.archive"@[0] == 'g');
    assert("general.archive"@[8] == 'a');
    assert("general.bz2-archive"@[0] == 'g');
    assert("general.bz2-archive"@[8] == 'b');
    assert("general.disk-image"@[0] == 'g');
    assert("general.disk-image"@[8] == 'd');
    assert("general.tar-archive"@[0] == 'g');
    assert("general.tar-archive"@[8] == 't');
    assert("general.tar-archive"@[9] == 'a');
    assert("general.zip-archive"@[0] == 'g');
    assert("general.zip-archive"@[8] == 'z');
    assert("com.sun.java-archive"@[0] == 'c');
    assert("com.sun.java-archive"@[4] == 's');
    assert("org.gnu.gnu-tar-archive"@[0] == 'o');
    assert("org.gnu.gnu-tar-archive"@[12] == 't');
    assert("org.gnu.gnu-zip-archive"@[0] == 'o');
    assert("org.gnu.gnu-zip-archive"@[12] == 'z');
    assert("org.gnu.gnu-zip-tar-archive"@[4] == 'g');
    assert("general.calendar"@[0] == 'g');
    assert("general.calendar"@[8] == 'c');
    assert("general.calendar"@[9] == 'a');
    assert("general.contact"@[0] == 'g');
    assert("general.contact"@[8] == 'c');
    assert("general.database"@[0] == 'g');
    assert("general.database"@[8] == 'd');
    assert("general.message"@[0] == 'g');
    assert("general.message"@[8] == 'm');
    assert("general.vcard"@[0] == 'g');
    assert("general.vcard"@[8] == 'v');
    assert("general.vcard"@[9] == 'c');
    assert("general.navigation"@[0] == 'g');
    assert("general.navigation"@[8] == 'n');
    assert("general.location"@[0] == 'g');
    assert("general.location"@[8] == 'l');
    assert("openharmony.form"@[0] == 'o');
    assert("openharmony.form"@[12] == 'f');
    assert("openharmony.app-item"@[0] == 'o');
    assert("openharmony.pixel-map"@[0] == 'o');
    assert("openharmony.atomic-service"@[0] == 'o');
    assert("openharmony.atomic-service"@[1] == 'p');
    assert("openharmony.package"@[0] == 'o');
    assert("openharmony.hap"@[0] == 'o');
    assert("com.real.smil"@[0] == 'c');
    assert("com.real.smil"@[4] == 'r');
    assert("general.markdown"@[0] == 'g');
    assert("general.markdown"@[8] == 'm');
    assert("general.fax"@[8] == 'f');
    assert("com.j2.jfx-fax"@[0] == 'c');
    assert("com.j2.jfx-fax"@[4] == 'j');
    assert("com.j2.jfx-fax"@[5] == '2');
    assert("com.js.efx-fax"@[0] == 'c');
    assert("com.js.efx-fax"@[4] == 'j');
    assert("com.js.efx-fax"@[5] == 's');
    assert("general.xbitmap-image"@[0] == 'g');
    assert("general.xbitmap-image"@[8] == 'x');
    assert("com.truevision.tga-image"@[0] == 'c');
    assert("com.truevision.tga-image"@[4] == 't');
    assert("com.sgi.sgi-image"@[0] == 'c');
    assert("com.sgi.sgi-image"@[4] == 's');
    assert("com.ilm.openexr-image"@[0] == 'c');
    assert("com.kodak.flashpix.image"@[0] == 'c');
    assert("com.kodak.flashpix.image"@[4] == 'k');
    assert("com.real.realmedia"@[0] == 'c');
    assert("com.real.realmedia"@[4] == 'r');
    assert("com.real.realmedia"@[13] == 'm');
    assert("general.au-audio"@[0] == 'g');
    assert("general.au-audio"@[8] == 'a');
    assert("general.aifc-audio"@[0] == 'g');
    assert("general.aifc-audio"@[8] == 'a');
    assert("com.digidesign.sd2-audio"@[0] == 'c');
    assert("com.digidesign.sd2-audio"@[4] == 'd');
    assert("com.real.realaudio"@[0] == 'c');
    assert("com.real.realaudio"@[4] == 'r');
    assert("com.real.realaudio"@[13] == 'a');
    assert("org.openxmlformats.openxml"@[0] == 'o');
    assert("org.openxmlformats.openxml"@[1] == 'r');
    assert("org.oasis.opendocument"@[0] == 'o');
    assert("org.oasis.opendocument.text"@[4] == 'o');
    assert("org.oasis.opendocument.graphics"@[0] == 'o');
    assert("org.oasis.opendocument.formula"@[0] == 'o');
    assert("com.allume.stuffit-archive"@[0] == 'c');
    assert("general.vcs"@[8] == 'v');
    assert("general.ics"@[8] == 'i');
    assert("general.executable"@[0] == 'g');
    assert("general.executable"@[8] == 'e');
    assert("com.microsoft.portable-executable"@[4] == 'm');
    assert("com.sun.java-class"@[0] == 'c');
    assert("com.sun.java-class"@[4] == 's');
    assert("general.font"@[8] == 'f');
    assert("general.font"@[9] == 'o');
}

#[verifier::rlimit(100)]
proof fn round_trip_chunk_5()
    ensures
        UniformDataType::spec_known_of_wire((UniformDataType::TruetypeFont).wire_spec())
            == Some(UniformDataType::TruetypeFont),
        UniformDataType::spec_known_of_wire((UniformDataType::TruetypeCollectionFont).wire_spec())
            == Some(UniformDataType::TruetypeCollectionFont),
        UniformDataType::spec_known_of_wire((UniformDataType::OpentypeFont).wire_spec())
            == Some(UniformDataType::OpentypeFont),
        UniformDataType::spec_known_of_wire((UniformDataType::PostscriptFont).wire_spec())
            == Some(UniformDataType::PostscriptFont),
        UniformDataType::spec_known_of_wire((UniformDataType::PostscriptPfbFont).wire_spec())
            == Some(UniformDataType::PostscriptPfbFont),
        UniformDataType::spec_known_of_wire((UniformDataType::PostscriptPfaFont).wire_spec())
            == Some(UniformDataType::PostscriptPfaFont),
        UniformDataType::spec_known_of_wire((UniformDataType::OpenHarmonyHdoc).wire_spec())
            == Some(UniformDataType::OpenHarmonyHdoc),
        UniformDataType::spec_known_of_wire((UniformDataType::OpenHarmonyHinote).wire_spec())
            == Some(UniformDataType::OpenHarmonyHinote),
        UniformDataType::spec_known_of_wire((UniformDataType::OpenHarmonyStyledString).wire_spec())
            == Some(UniformDataType::OpenHarmonyStyledString),
        UniformDataType::spec_known_of_wire((UniformDataType::OpenHarmonyWant).wire_spec())
            == Some(UniformDataType::OpenHarmonyWant),
        UniformDataType::spec_known_of_wire((UniformDataType::GeneralFileUri).wire_spec())
            == Some(UniformDataType::GeneralFileUri),
        UniformDataType::spec_known_of_wire((UniformDataType::GeneralContentForm).wire_spec())
            == Some(UniformDataType::GeneralContentForm),
{
    reveal_strlit("general.entity");
    reveal_strlit("general.object");
    reveal_strlit("general.composite-object");
    reveal_strlit("general.text");
    reveal_strlit("general.plain-text");
    reveal_strlit("general.html");
    reveal_strlit("general.hyperlink");
    reveal_strlit("general.xml");
    reveal_strlit("general.source-code");
    reveal_strlit("general.script");
    reveal_strlit("general.shell-script");
    reveal_strlit("general.csh-script");
    reveal_strlit("general.perl-script");
    reveal_strlit("general.php-script");
    reveal_strlit("general.python-script");
    reveal_strlit("general.ruby-script");
    reveal_strlit("general.type-script");
    reveal_strlit("general.java-script");
    reveal_strlit("general.c-header");
    reveal_strlit("general.c-source");
    reveal_strlit("general.c-plus-plus-header");
    reveal_strlit("general.c-plus-plus-source");
    reveal_strlit("general.java-source");
    reveal_strlit("general.ebook");
    reveal_strlit("general.epub");
    reveal_strlit("com.amazon.azw");
    reveal_strlit("com.amazon.azw3");
    reveal_strlit("com.amazon.kfx");
    reveal_strlit("com.amazon.mobi");
    reveal_strlit("general.media");
    reveal_strlit("general.image");
    reveal_strlit("general.jpeg");
    reveal_strlit("general.png");
    reveal_strlit("general.raw-image");
    reveal_strlit("general.tiff");
    reveal_strlit("com.microsoft.bmp");
    reveal_strlit("com.microsoft.ico");
    reveal_strlit("com.adobe.photoshop-image");
    reveal_strlit("com.adobe.illustrator.ai-image");
    reveal_strlit("com.microsoft.word.doc");
    reveal_strlit("com.microsoft.excel.xls");
    reveal_strlit("com.microsoft.powerpoint.ppt");
    reveal_strlit("com.adobe.pdf");
    reveal_strlit("com.adobe.postscript");
    reveal_strlit("com.adobe.encapsulated-postscript");
    reveal_strlit("general.video");
    reveal_strlit("general.avi");
    reveal_strlit("general.mpeg");
    reveal_strlit("general.mpeg-4");
    reveal_strlit("general.3gpp");
    reveal_strlit("general.3gpp2");
    reveal_strlit("com.microsoft.windows-media-wm");
    reveal_strlit("com.microsoft.windows-media-wmv");
    reveal_strlit("com.microsoft.windows-media-wmp");
    reveal_strlit("general.audio");
    reveal_strlit("general.aac");
    reveal_strlit("general.aiff");
    reveal_strlit("general.alac");
    reveal_strlit("general.flac");
    reveal_strlit("general.mp3");
    reveal_strlit("general.ogg");
    reveal_strlit("general.pcm");
    reveal_strlit("com.microsoft.windows-media-wma");
    reveal_strlit("com.microsoft.waveform-audio");
    reveal_strlit("com.microsoft.windows-media-wmx");
    reveal_strlit("com.microsoft.windows-media-wvx");
    reveal_strlit("com.microsoft.windows-media-wax");
    reveal_strlit("general.file");
    reveal_strlit("general.directory");
    reveal_strlit("general.folder");
    reveal_strlit("general.symlink");
    reveal_strlit("general.archive");
    reveal_strlit("general.bz2-archive");
    reveal_strlit("general.disk-image");
    reveal_strlit("general.tar-archive");
    reveal_strlit("general.zip-archive");
    reveal_strlit("com.sun.java-archive");
    reveal_strlit("org.gnu.gnu-tar-archive");
    reveal_strlit("org.gnu.gnu-zip-archive");
    reveal_strlit("org.gnu.gnu-zip-tar-archive");
    reveal_strlit("general.calendar");
    reveal_strlit("general.contact");
    reveal_strlit("general.database");
    reveal_strlit("general.message");
    reveal_strlit("general.vcard");
    reveal_strlit("general.navigation");
    reveal_strlit("general.location");
    reveal_strlit("openharmony.form");
    reveal_strlit("openharmony.app-item");
    reveal_strlit("openharmony.pixel-map");
    reveal_strlit("openharmony.atomic-service");
    reveal_strlit("openharmony.package");
    reveal_strlit("openharmony.hap");
    reveal_strlit("com.real.smil");
    reveal_strlit("general.markdown");
    reveal_strlit("general.fax");
    reveal_strlit("com.j2.jfx-fax");
    reveal_strlit("com.js.efx-fax");
    reveal_strlit("general.xbitmap-image");
    reveal_strlit("com.truevision.tga-image");
    reveal_strlit("com.sgi.sgi-image");
    reveal_strlit("com.ilm.openexr-image");
    reveal_strlit("com.kodak.flashpix.image");
    reveal_strlit("com.real.realmedia");
    reveal_strlit("general.au-audio");
    reveal_strlit("general.aifc-audio");
    reveal_strlit("com.digidesign.sd2-audio");
    reveal_strlit("com.real.realaudio");
    reveal_strlit("org.openxmlformats.openxml");
    reveal_strlit("org.openxmlformats.wordprocessingml.document");
    reveal_strlit("org.openxmlformats.spreadsheetml.sheet");
    reveal_strlit("org.openxmlformats.presentationml.presentation");
    reveal_strlit("org.oasis.opendocument");
    reveal_strlit("org.oasis.opendocument.text");
    reveal_strlit("org.oasis.opendocument.spreadsheet");
    reveal_strlit("org.oasis.opendocument.presentation");
    reveal_strlit("org.oasis.opendocument.graphics");
    reveal_strlit("org.oasis.opendocument.formula");
    reveal_strlit("com.allume.stuffit-archive");
    reveal_strlit("general.vcs");
    reveal_strlit("general.ics");
    reveal_strlit("general.executable");
    reveal_strlit("com.microsoft.portable-executable");
    reveal_strlit("com.sun.java-class");
    reveal_strlit("general.font");
    reveal_strlit("general.truetype-font");
    reveal_strlit("general.truetype-collection-font");
    reveal_strlit("general.opentype-font");
    reveal_strlit("com.adobe.postscript-font");
    reveal_strlit("com.adobe.postscript-pfb-font");
    reveal_strlit("com.adobe.postscript-pfa-font");
    reveal_strlit("openharmony.hdoc");
    reveal_strlit("openharmony.hinote");
    reveal_strlit("openharmony.styled-string");
    reveal_strlit("openharmony.want");
    reveal_strlit("general.file-uri");
    reveal_strlit("general.content-form");
    assert("general.entity"@.len() == 14);
    assert("general.object"@.len() == 14);
    assert("general.composite-object"@.len() == 24);
    assert("general.text"@.len() == 12);
    assert("general.plain-text"@.len() == 18);
    assert("general.html"@.len() == 12);
    assert("general.hyperlink"@.len() == 17);
    assert("general.xml"@.len() == 11);
    assert("general.source-code"@.len() == 19);
    assert("general.script"@.len() == 14);
    assert("general.shell-script"@.len() == 20);
    assert("general.csh-script"@.len() == 18);
    assert("general.perl-script"@.len() == 19);
    assert("general.php-script"@.len() == 18);
    assert("general.python-script"@.len() == 21);
    assert("general.ruby-script"@.len() == 19);
    assert("general.type-script"@.len() == 19);
    assert("general.java-script"@.len() == 19);
    assert("general.c-header"@.len() == 16);
    assert("general.c-source"@.len() == 16);
    assert("general.c-plus-plus-header"@.len() == 26);
    assert("general.c-plus-plus-source"@.len() == 26);
    assert("general.java-source"@.len() == 19);
    assert("general.ebook"@.len() == 13);
    assert("general.epub"@.len() == 12);
    assert("com.amazon.azw"@.len() == 14);
    assert("com.amazon.azw3"@.len() == 15);
    assert("com.amazon.kfx"@.len() == 14);
    assert("com.amazon.mobi"@.len() == 15);
    assert("general.media"@.len() == 13);
    assert("general.image"@.len() == 13);
    assert("general.jpeg"@.len() == 12);
    assert("general.png"@.len() == 11);
    assert("general.raw-image"@.len() == 17);
    assert("general.tiff"@.len() == 12);
    assert("com.microsoft.bmp"@.len() == 17);
    assert("com.microsoft.ico"@.len() == 17);
    assert("com.adobe.photoshop-image"@.len() == 25);
    assert("com.adobe.illustrator.ai-image"@.len() == 30);
    assert("com.microsoft.word.doc"@.len() == 22);
    assert("com.microsoft.excel.xls"@.len() == 23);
    assert("com.microsoft.powerpoint.ppt"@.len() == 28);
    assert("com.adobe.pdf"@.len() == 13);
    assert("com.adobe.postscript"@.len() == 20);
    assert("com.adobe.encapsulated-postscript"@.len() == 33);
    assert("general.video"@.len() == 13);
    assert("general.avi"@.len() == 11);
    assert("general.mpeg"@.len() == 12);
    assert("general.mpeg-4"@.len() == 14);
    assert("general.3gpp"@.len() == 12);
    assert("general.3gpp2"@.len() == 13);
    assert("com.microsoft.windows-media-wm"@.len() == 30);
    assert("com.microsoft.windows-media-wmv"@.len() == 31);
    assert("com.microsoft.windows-media-wmp"@.len() == 31);
    assert("general.audio"@.len() == 13);
    assert("general.aac"@.len() == 11);
    assert("general.aiff"@.len() == 12);
    assert("general.alac"@.len() == 12);
    assert("general.flac"@.len() == 12);
    assert("general.mp3"@.len() == 11);
    assert("general.ogg"@.len() == 11);
    assert("general.pcm"@.len() == 11);
    assert("com.microsoft.windows-media-wma"@.len() == 31);
    assert("com.microsoft.waveform-audio"@.len() == 28);
    assert("com.microsoft.windows-media-wmx"@.len() == 31);
    assert("com.microsoft.windows-media-wvx"@.len() == 31);
    assert("com.microsoft.windows-media-wax"@.len() == 31);
    assert("general.file"@.len() == 12);
    assert("general.directory"@.len() == 17);
    assert("general.folder"@.len() == 14);
    assert("general.symlink"@.len() == 15);
    assert("general.archive"@.len() == 15);
    assert("general.bz2-archive"@.len() == 19);
    assert("general.disk-image"@.len() == 18);
    assert("general.tar-archive"@.len() == 19);
    assert("general.zip-archive"@.len() == 19);
    assert("com.sun.java-archive"@.len() == 20);
    assert("org.gnu.gnu-tar-archive"@.len() == 23);
    assert("org.gnu.gnu-zip-archive"@.len() == 23);
    assert("org.gnu.gnu-zip-tar-archive"@.len() == 27);
    assert("general.calendar"@.len() == 16);
    assert("general.contact"@.len() == 15);
    assert("general.database"@.len() == 16);
    assert("general.message"@.len() == 15);
    assert("general.vcard"@.len() == 13);
    assert("general.navigation"@.len() == 18);
    assert("general.location"@.len() == 16);
    assert("openharmony.form"@.len() == 16);
    assert("openharmony.app-item"@.len() == 20);
    assert("openharmony.pixel-map"@.len() == 21);
    assert("openharmony.atomic-service"@.len() == 26);
    assert("openharmony.package"@.len() == 19);
    assert("openharmony.hap"@.len() == 15);
    assert("com.real.smil"@.len() == 13);
    assert("general.markdown"@.len() == 16);
    assert("general.fax"@.len() == 11);
    assert("com.j2.jfx-fax"@.len() == 14);
    assert("com.js.efx-fax"@.len() == 14);
    assert("general.xbitmap-image"@.len() == 21);
    assert("com.truevision.tga-image"@.len() == 24);
    assert("com.sgi.sgi-image"@.len() == 17);
    assert("com.ilm.openexr-image"@.len() == 21);
    assert("com.kodak.flashpix.image"@.len() == 24);
    assert("com.real.realmedia"@.len() == 18);
    assert("general.au-audio"@.len() == 16);
    assert("general.aifc-audio"@.len() == 18);
    assert("com.digidesign.sd2-audio"@.len() == 24);
    assert("com.real.realaudio"@.len() == 18);
    assert("org.openxmlformats.openxml"@.len() == 26);
    assert("org.openxmlformats.wordprocessingml.document"@.len() == 44);
    assert("org.openxmlformats.spreadsheetml.sheet"@.len() == 38);
    assert("org.openxmlformats.presentationml.presentation"@.len() == 46);
    assert("org.oasis.opendocument"@.len() == 22);
    assert("org.oasis.opendocument.text"@.len() == 27);
    assert("org.oasis.opendocument.spreadsheet"@.len() == 34);
    assert("org.oasis.opendocument.presentation"@.len() == 35);
    assert("org.oasis.opendocument.graphics"@.len() == 31);
    assert("org.oasis.opendocument.formula"@.len() == 30);
    assert("com.allume.stuffit-archive"@.len() == 26);
    assert("general.vcs"@.len() == 11);
    assert("general.ics"@.len() == 11);
    assert("general.executable"@.len() == 18);
    assert("com.microsoft.portable-executable"@.len() == 33);
    assert("com.sun.java-class"@.len() == 18);
    assert("general.font"@.len() == 12);
    assert("general.truetype-font"@.len() == 21);
    assert("general.truetype-collection-font"@.len() == 32);
    assert("general.opentype-font"@.len() == 21);
    assert("com.adobe.postscript-font"@.len() == 25);
    assert("com.adobe.postscript-pfb-font"@.len() == 29);
    assert("com.adobe.postscript-pfa-font"@.len() == 29);
    assert("openharmony.hdoc"@.len() == 16);
    assert("openharmony.hinote"@.len() == 18);
    assert("openharmony.styled-string"@.len() == 25);
    assert("openharmony.want"@.len() == 16);
    assert("general.file-uri"@.len() == 16);
    assert("general.content-form"@.len() == 20);
    assert("general.entity"@[0] == 'g');
    assert("general.entity"@[8] == 'e');
    assert("general.object"@[0] == 'g');
    assert("general.object"@[8] == 'o');
    assert("general.composite-object"@[0] == 'g');
    assert("general.text"@[8] == 't');
    assert("general.text"@[9] == 'e');
    assert("general.plain-text"@[0] == 'g');
    assert("general.plain-text"@[8] == 'p');
    assert("general.plain-text"@[9] == 'l');
    assert("general.html"@[8] == 'h');
    assert("general.hyperlink"@[0] == 'g');
    assert("general.hyperlink"@[8] == 'h');
    assert("general.xml"@[8] == 'x');
    assert("general.source-code"@[0] == 'g');
    assert("general.source-code"@[8] == 's');
    assert("general.script"@[0] == 'g');
    assert("general.script"@[8] == 's');
    assert("general.shell-script"@[0] == 'g');
    assert("general.shell-script"@[8] == 's');
    assert("general.csh-script"@[0] == 'g');
    assert("general.csh-script"@[8] == 'c');
    assert("general.perl-script"@[0] == 'g');
    assert("general.perl-script"@[8] == 'p');
    assert("general.php-script"@[0] == 'g');
    assert("general.php-script"@[8] == 'p');
    assert("general.php-script"@[9] == 'h');
    assert("general.python-script"@[0] == 'g');
    assert("general.python-script"@[8] == 'p');
    assert("general.ruby-script"@[0] == 'g');
    assert("general.ruby-script"@[8] == 'r');
    assert("general.type-script"@[0] == 'g');
    assert("general.type-script"@[8] == 't');
    assert("general.type-script"@[9] == 'y');
    assert("general.java-script"@[0] == 'g');
    assert("general.java-script"@[8] == 'j');
    assert("general.java-script"@[14] == 'c');
    assert("general.c-header"@[0] == 'g');
    assert("general.c-header"@[8] == 'c');
    assert("general.c-header"@[9] == '-');
    assert("general.c-header"@[10] == 'h');
    assert("general.c-source"@[0] == 'g');
    assert("general.c-source"@[8] == 'c');
    assert("general.c-source"@[9] == '-');
    assert("general.c-source"@[10] == 's');
    assert("general.c-plus-plus-header"@[0] == 'g');
    assert("general.c-plus-plus-header"@[20] == 'h');
    assert("general.c-plus-plus-source"@[0] == 'g');
    assert("general.c-plus-plus-source"@[20] == 's');
    assert("general.java-source"@[0] == 'g');
    assert("general.java-source"@[8] == 'j');
    assert("general.java-source"@[14] == 'o');
    assert("general.ebook"@[0] == 'g');
    assert("general.ebook"@[8] == 'e');
    assert("general.epub"@[8] == 'e');
    assert("com.amazon.azw"@[0] == 'c');
    assert("com.amazon.azw"@[4] == 'a');
    assert("com.amazon.azw"@[11] == 'a');
    assert("com.amazon.azw3"@[0] == 'c');
    assert("com.amazon.azw3"@[11] == 'a');
    assert("com.amazon.kfx"@[0] == 'c');
    assert("com.amazon.kfx"@[4] == 'a');
    assert("com.amazon.kfx"@[11] == 'k');
    assert("com.amazon.mobi"@[0] == 'c');
    assert("com.amazon.mobi"@[11] == 'm');
    assert("general.media"@[0] == 'g');
    assert("general.media"@[8] == 'm');
    assert("general.image"@[0] == 'g');
    assert("general.image"@[8] == 'i');
    assert("general.jpeg"@[8] == 'j');
    assert("general.png"@[8] == 'p');
    assert("general.png"@[9] == 'n');
    assert("general.raw-image"@[0] == 'g');
    assert("general.raw-image"@[8] == 'r');
    assert("general.tiff"@[8] == 't');
    assert("general.tiff"@[9] == 'i');
    assert("com.microsoft.bmp"@[0] == 'c');
    assert("com.microsoft.bmp"@[4] == 'm');
    assert("com.microsoft.bmp"@[14] == 'b');
    assert("com.microsoft.ico"@[0] == 'c');
    assert("com.microsoft.ico"@[4] == 'm');
    assert("com.microsoft.ico"@[14] == 'i');
    assert("com.adobe.photoshop-image"@[0] == 'c');
    assert("com.adobe.photoshop-image"@[11] == 'h');
    assert("com.adobe.illustrator.ai-image"@[0] == 'c');
    assert("com.adobe.illustrator.ai-image"@[4] == 'a');
    assert("com.microsoft.word.doc"@[0] == 'c');
    assert("com.microsoft.excel.xls"@[0] == 'c');
    assert("com.microsoft.powerpoint.ppt"@[14] == 'p');
    assert("com.adobe.pdf"@[0] == 'c');
    assert("com.adobe.pdf"@[4] == 'a');
    assert("com.adobe.postscript"@[0] == 'c');
    assert("com.adobe.postscript"@[4] == 'a');
    assert("com.adobe.encapsulated-postscript"@[4] == 'a');
    assert("general.video"@[0] == 'g');
    assert("general.video"@[8] == 'v');
    assert("general.video"@[9] == 'i');
    assert("general.avi"@[8] == 'a');
    assert("general.avi"@[9] == 'v');
    assert("general.mpeg"@[8] == 'm');
    assert("general.mpeg-4"@[0] == 'g');
    assert("general.mpeg-4"@[8] == 'm');
    assert("general.3gpp"@[8] == '3');
    assert("general.3gpp2"@[0] == 'g');
    assert("general.3gpp2"@[8] == '3');
    assert("com.microsoft.windows-media-wm"@[0] == 'c');
    assert("com.microsoft.windows-media-wm"@[4] == 'm');
    assert("com.microsoft.windows-media-wmv"@[0] == 'c');
    assert("com.microsoft.windows-media-wmv"@[29] == 'm');
    assert("com.microsoft.windows-media-wmv"@[30] == 'v');
    assert("com.microsoft.windows-media-wmp"@[0] == 'c');
    assert("com.microsoft.windows-media-wmp"@[29] == 'm');
    assert("com.microsoft.windows-media-wmp"@[30] == 'p');
    assert("general.audio"@[0] == 'g');
    assert("general.audio"@[8] == 'a');
    assert("general.aac"@[8] == 'a');
    assert("general.aac"@[9] == 'a');
    assert("general.aiff"@[8] == 'a');
    assert("general.aiff"@[9] == 'i');
    assert("general.alac"@[8] == 'a');
    assert("general.alac"@[9] == 'l');
    assert("general.flac"@[8] == 'f');
    assert("general.flac"@[9] == 'l');
    assert("general.mp3"@[8] == 'm');
    assert("general.ogg"@[8] == 'o');
    assert("general.pcm"@[8] == 'p');
    assert("general.pcm"@[9] == 'c');
    assert("com.microsoft.windows-media-wma"@[0] == 'c');
    assert("com.microsoft.windows-media-wma"@[29] == 'm');
    assert("com.microsoft.windows-media-wma"@[30] == 'a');
    assert("com.microsoft.waveform-audio"@[14] == 'w');
    assert("com.microsoft.windows-media-wmx"@[0] == 'c');
    assert("com.microsoft.windows-media-wmx"@[29] == 'm');
    assert("com.microsoft.windows-media-wmx"@[30] == 'x');
    assert("com.microsoft.windows-media-wvx"@[0] == 'c');
    assert("com.microsoft.windows-media-wvx"@[29] == 'v');
    assert("com.microsoft.windows-media-wax"@[0] == 'c');
    assert("com.microsoft.windows-media-wax"@[29] == 'a');
    assert("general.file"@[8] == 'f');
    assert("general.file"@[9] == 'i');
    assert("general.directory"@[0] == 'g');
    assert("general.directory"@[8] == 'd');
    assert("general.folder"@[0] == 'g');
    assert("general.folder"@[8] == 'f');
    assert("general.symlink"@[0] == 'g');
    assert("general.symlink"@[8] == 's');
    assert("general.archive"@[0] == 'g');
    assert("general.archive"@[8] == 'a');
    assert("general.bz2-archive"@[0] == 'g');
    assert("general.bz2-archive"@[8] == 'b');
    assert("general.disk-image"@[0] == 'g');
    assert("general.disk-image"@[8] == 'd');
    assert("general.tar-archive"@[0] == 'g');
    assert("general.tar-archive"@[8] == 't');
    assert("general.tar-archive"@[9] == 'a');
    assert("general.zip-archive"@[0] == 'g');
    assert("general.zip-archive"@[8] == 'z');
    assert("com.sun.java-archive"@[0] == 'c');
    assert("com.sun.java-archive"@[4] == 's');
    assert("org.gnu.gnu-tar-archive"@[0] == 'o');
    assert("org.gnu.gnu-tar-archive"@[12] == 't');
    assert("org.gnu.gnu-zip-archive"@[0] == 'o');
    assert("org.gnu.gnu-zip-archive"@[12] == 'z');
    assert("org.gnu.gnu-zip-tar-archive"@[4] == 'g');
    assert("general.calendar"@[0] == 'g');
    assert("general.calendar"@[8] == 'c');
    assert("general.calendar"@[9] == 'a');
    assert("general.contact"@[0] == 'g');
    assert("general.contact"@[8] == 'c');
    assert("general.database"@[0] == 'g');
    assert("general.database"@[8] == 'd');
    assert("general.message"@[0] == 'g');
    assert("general.message"@[8] == 'm');
    assert("general.vcard"@[0] == 'g');
    assert("general.vcard"@[8] == 'v');
    assert("general.vcard"@[9] == 'c');
    assert("general.navigation"@[0] == 'g');
    assert("general.navigation"@[8] == 'n');
    assert("general.location"@[0] == 'g');
    assert("general.location"@[8] == 'l');
    assert("openharmony.form"@[0] == 'o');
    assert("openharmony.form"@[12] == 'f');
    assert("openharmony.app-item"@[0] == 'o');
    assert("openharmony.pixel-map"@[0] == 'o');
    assert("openharmony.atomic-service"@[0] == 'o');
    assert("openharmony.atomic-service"@[1] == 'p');
    assert("openharmony.package"@[0] == 'o');
    assert("openharmony.hap"@[0] == 'o');
    assert("com.real.smil"@[0] == 'c');
    assert("com.real.smil"@[4] == 'r');
    assert("general.markdown"@[0] == 'g');
    assert("general.markdown"@[8] == 'm');
    assert("general.fax"@[8] == 'f');
    assert("com.j2.jfx-fax"@[0] == 'c');
    assert("com.j2.jfx-fax"@[4] == 'j');
    assert("com.j2.jfx-fax"@[5] == '2');
    assert("com.js.efx-fax"@[0] == 'c');
    assert("com.js.efx-fax"@[4] == 'j');
    assert("com.js.efx-fax"@[5] == 's');
    assert("general.xbitmap-image"@[0] == 'g');
    assert("general.xbitmap-image"@[8] == 'x');
    assert("com.truevision.tga-image"@[0] == 'c');
    assert("com.truevision.tga-image"@[4] == 't');
    assert("com.sgi.sgi-image"@[0] == 'c');
    assert("com.sgi.sgi-image"@[4] == 's');
    assert("com.ilm.openexr-image"@[0] == 'c');
    assert("com.kodak.flashpix.image"@[0] == 'c');
    assert("com.kodak.flashpix.image"@[4] == 'k');
    assert("com.real.realmedia"@[0] == 'c');
    assert("com.real.realmedia"@[4] == 'r');
    assert("com.real.realmedia"@[13] == 'm');
    assert("general.au-audio"@[0] == 'g');
    assert("general.au-audio"@[8] == 'a');
    assert("general.aifc-audio"@[0] == 'g');
    assert("general.aifc-audio"@[8] == 'a');
    assert("com.digidesign.sd2-audio"@[0] == 'c');
    assert("com.digidesign.sd2-audio"@[4] == 'd');
    assert("com.real.realaudio"@[0] == 'c');
    assert("com.real.realaudio"@[4] == 'r');
    assert("com.real.realaudio"@[13] == 'a');
    assert("org.openxmlformats.openxml"@[0] == 'o');
    assert("org.openxmlformats.openxml"@[1] == 'r');
    assert("org.oasis.opendocument"@[0] == 'o');
    assert("org.oasis.opendocument.text"@[4] == 'o');
    assert("org.oasis.opendocument.graphics"@[0] == 'o');
    assert("org.oasis.opendocument.formula"@[0] == 'o');
    assert("com.allume.stuffit-archive"@[0] == 'c');
    assert("general.vcs"@[8] == 'v');
    assert("general.ics"@[8] == 'i');
    assert("general.executable"@[0] == 'g');
    assert("general.executable"@[8] == 'e');
    assert("com.microsoft.portable-executable"@[4] == 'm');
    assert("com.sun.java-class"@[0] == 'c');
    assert("com.sun.java-class"@[4] == 's');
    assert("general.font"@[8] == 'f');
    assert("general.font"@[9] == 'o');
    assert("general.truetype-font"@[0] == 'g');
    assert("general.truetype-font"@[8] == 't');
    assert("general.opentype-font"@[0] == 'g');
    assert("general.opentype-font"@[8] == 'o');
    assert("com.adobe.postscript-font"@[0] == 'c');
    assert("com.adobe.postscript-font"@[11] == 'o');
    assert("com.adobe.postscript-pfb-font"@[23] == 'b');
    assert("com.adobe.postscript-pfa-font"@[23] == 'a');
    assert("openharmony.hdoc"@[0] == 'o');
    assert("openharmony.hdoc"@[12] == 'h');
    assert("openharmony.hinote"@[0] == 'o');
    assert("openharmony.styled-string"@[0] == 'o');
    assert("openharmony.want"@[0] == 'o');
    assert("openharmony.want"@[12] == 'w');
    assert("general.file-uri"@[0] == 'g');
    assert("general.file-uri"@[8] == 'f');
    assert("general.content-form"@[0] == 'g');
    assert("general.content-form"@[8] == 'c');
}

/// Round trip: the wire string of every well-known tag parses back to
/// exactly that tag — no two well-known wire strings collide, and the
/// parse never falls through to the `Other` escape for a catalog entry.
pub proof fn lemma_wire_round_trip(t: UniformDataType)
    requires
        t.is_well_known(),
    ensures
        UniformDataType::spec_known_of_wire(t.wire_spec()) == Some(t),
{
    match t {
        UniformDataType::Entity => round_trip_chunk_0(),
        UniformDataType::Object => round_trip_chunk_0(),
        UniformDataType::CompositeObject => round_trip_chunk_0(),
        UniformDataType::Text => round_trip_chunk_0(),
        UniformDataType::PlainText => round_trip_chunk_0(),
        UniformDataType::Html => round_trip_chunk_0(),
        UniformDataType::Hyperlink => round_trip_chunk_0(),
        UniformDataType::Xml => round_trip_chunk_0(),
        UniformDataType::SourceCode => round_trip_chunk_0(),
        UniformDataType::Script => round_trip_chunk_0(),
        UniformDataType::ShellScript => round_trip_chunk_0(),
        UniformDataType::CshScript => round_trip_chunk_0(),
        UniformDataType::PerlScript => round_trip_chunk_0(),
        UniformDataType::PhpScript => round_trip_chunk_0(),
        UniformDataType::PythonScript => round_trip_chunk_0(),
        UniformDataType::RubyScript => round_trip_chunk_0(),
        UniformDataType::TypeScript => round_trip_chunk_0(),
        UniformDataType::JavaScript => round_trip_chunk_0(),
        UniformDataType::CHeader => round_trip_chunk_0(),
        UniformDataType::CSource => round_trip_chunk_0(),
        UniformDataType::CPlusPlusHeader => round_trip_chunk_0(),
        UniformDataType::CPlusPlusSource => round_trip_chunk_0(),
        UniformDataType::JavaSource => round_trip_chunk_0(),
        UniformDataType::Ebook => round_trip_chunk_0(),
        UniformDataType::Epub => round_trip_chunk_0(),
        UniformDataType::Azw => round_trip_chunk_1(),
        UniformDataType::Azw3 => round_trip_chunk_1(),
        UniformDataType::Kfx => round_trip_chunk_1(),
        UniformDataType::Mobi => round_trip_chunk_1(),
        UniformDataType::Media => round_trip_chunk_1(),
        UniformDataType::Image => round_trip_chunk_1(),
        UniformDataType::Jpeg => round_trip_chunk_1(),
        UniformDataType::Png => round_trip_chunk_1(),
        UniformDataType::RawImage => round_trip_chunk_1(),
        UniformDataType::Tiff => round_trip_chunk_1(),
        UniformDataType::Bmp => round_trip_chunk_1(),
        UniformDataType::Ico => round_trip_chunk_1(),
        UniformDataType::PhotoshopImage => round_trip_chunk_1(),
        UniformDataType::AiImage => round_trip_chunk_1(),
        UniformDataType::WordDoc => round_trip_chunk_1(),
        UniformDataType::Excel => round_trip_chunk_1(),
        UniformDataType::Ppt => round_trip_chunk_1(),
        UniformDataType::Pdf => round_trip_chunk_1(),
        UniformDataType::Postscript => round_trip_chunk_1(),
        UniformDataType::EncapsulatedPostscript => round_trip_chunk_1(),
        UniformDataType::Video => round_trip_chunk_1(),
        UniformDataType::Avi => round_trip_chunk_1(),
        UniformDataType::Mpeg => round_trip_chunk_1(),
        UniformDataType::Mpeg4 => round_trip_chunk_1(),
        UniformDataType::Video3gpp => round_trip_chunk_1(),
        UniformDataType::Video3gpp2 => round_trip_chunk_2(),
        UniformDataType::WindowsMediaWm => round_trip_chunk_2(),
        UniformDataType::WindowsMediaWmv => round_trip_chunk_2(),
        UniformDataType::WindowsMediaWmp => round_trip_chunk_2(),
        UniformDataType::Audio => round_trip_chunk_2(),
        UniformDataType::Aac => round_trip_chunk_2(),
        UniformDataType::Aiff => round_trip_chunk_2(),
        UniformDataType::Alac => round_trip_chunk_2(),
        UniformDataType::Flac => round_trip_chunk_2(),
        UniformDataType::Mp3 => round_trip_chunk_2(),
        UniformDataType::Ogg => round_trip_chunk_2(),
        UniformDataType::Pcm => round_trip_chunk_2(),
        UniformDataType::WindowsMediaWma => round_trip_chunk_2(),
        UniformDataType::WaveformAudio => round_trip_chunk_2(),
        UniformDataType::WindowsMediaWmx => round_trip_chunk_2(),
        UniformDataType::WindowsMediaWvx => round_trip_chunk_2(),
        UniformDataType::WindowsMediaWax => round_trip_chunk_2(),
        UniformDataType::GeneralFile => round_trip_chunk_2(),
        UniformDataType::Directory => round_trip_chunk_2(),
        UniformDataType::Folder => round_trip_chunk_2(),
        UniformDataType::Symlink => round_trip_chunk_2(),
        UniformDataType::Archive => round_trip_chunk_2(),
        UniformDataType::Bz2Archive => round_trip_chunk_2(),
        UniformDataType::DiskImage => round_trip_chunk_2(),
        UniformDataType::TarArchive => round_trip_chunk_2(),
        UniformDataType::ZipArchive => round_trip_chunk_3(),
        UniformDataType::JavaArchive => round_trip_chunk_3(),
        UniformDataType::GnuTarArchive => round_trip_chunk_3(),
        UniformDataType::GnuZipArchive => round_trip_chunk_3(),
        UniformDataType::GnuZipTarArchive => round_trip_chunk_3(),
        UniformDataType::Calendar => round_trip_chunk_3(),
        UniformDataType::Contact => round_trip_chunk_3(),
        UniformDataType::Database => round_trip_chunk_3(),
        UniformDataType::Message => round_trip_chunk_3(),
        UniformDataType::Vcard => round_trip_chunk_3(),
        UniformDataType::Navigation => round_trip_chunk_3(),
        UniformDataType::Location => round_trip_chunk_3(),
        UniformDataType::OpenHarmonyForm => round_trip_chunk_3(),
        UniformDataType::OpenHarmonyAppItem => round_trip_chunk_3(),
        UniformDataType::OpenHarmonyPixelMap => round_trip_chunk_3(),
        UniformDataType::OpenHarmonyAtomicService => round_trip_chunk_3(),
        UniformDataType::OpenHarmonyPackage => round_trip_chunk_3(),
        UniformDataType::OpenHarmonyHap => round_trip_chunk_3(),
        UniformDataType::Smil => round_trip_chunk_3(),
        UniformDataType::Markdown => round_trip_chunk_3(),
        UniformDataType::Fax => round_trip_chunk_3(),
        UniformDataType::JfxFax => round_trip_chunk_3(),
        UniformDataType::EfxFax => round_trip_chunk_3(),
        UniformDataType::XbitmapImage => round_trip_chunk_3(),
        UniformDataType::TgaImage => round_trip_chunk_3(),
        UniformDataType::SgiImage => round_trip_chunk_4(),
        UniformDataType::OpenexrImage => round_trip_chunk_4(),
        UniformDataType::FlashpixImage => round_trip_chunk_4(),
        UniformDataType::Realmedia => round_trip_chunk_4(),
        UniformDataType::AuAudio => round_trip_chunk_4(),
        UniformDataType::AifcAudio => round_trip_chunk_4(),
        UniformDataType::Sd2Audio => round_trip_chunk_4(),
        UniformDataType::Realaudio => round_trip_chunk_4(),
        UniformDataType::Openxml => round_trip_chunk_4(),
        UniformDataType::WordprocessingmlDocument => round_trip_chunk_4(),
        UniformDataType::SpreadsheetmlSheet => round_trip_chunk_4(),
        UniformDataType::PresentationmlPresentation => round_trip_chunk_4(),
        UniformDataType::Opendocument => round_trip_chunk_4(),
        UniformDataType::OpendocumentText => round_trip_chunk_4(),
        UniformDataType::OpendocumentSpreadsheet => round_trip_chunk_4(),
        UniformDataType::OpendocumentPresentation => round_trip_chunk_4(),
        UniformDataType::OpendocumentGraphics => round_trip_chunk_4(),
        UniformDataType::OpendocumentFormula => round_trip_chunk_4(),
        UniformDataType::StuffitArchive => round_trip_chunk_4(),
        UniformDataType::Vcs => round_trip_chunk_4(),
        UniformDataType::Ics => round_trip_chunk_4(),
        UniformDataType::Executable => round_trip_chunk_4(),
        UniformDataType::PortableExecutable => round_trip_chunk_4(),
        UniformDataType::SunJavaClass => round_trip_chunk_4(),
        UniformDataType::Font => round_trip_chunk_4(),
        UniformDataType::TruetypeFont => round_trip_chunk_5(),
        UniformDataType::TruetypeCollectionFont => round_trip_chunk_5(),
        UniformDataType::OpentypeFont => round_trip_chunk_5(),
        UniformDataType::PostscriptFont => round_trip_chunk_5(),
        UniformDataType::PostscriptPfbFont => round_trip_chunk_5(),
        UniformDataType::PostscriptPfaFont => round_trip_chunk_5(),
        UniformDataType::OpenHarmonyHdoc => round_trip_chunk_5(),
        UniformDataType::OpenHarmonyHinote => round_trip_chunk_5(),
        UniformDataType::OpenHarmonyStyledString => round_trip_chunk_5(),
        UniformDataType::OpenHarmonyWant => round_trip_chunk_5(),
        UniformDataType::GeneralFileUri => round_trip_chunk_5(),
        UniformDataType::GeneralContentForm => round_trip_chunk_5(),
        UniformDataType::Other(_) => (),
    }
}

/// A successful parse spells its input: whenever a wire string denotes a
/// well-known tag, that tag's own wire string is the input, exactly.
pub proof fn lemma_known_of_wire_spells(s: Seq<char>)
    ensures
        UniformDataType::spec_known_of_wire(s) matches Some(t) ==> t.wire_spec() == s,
{
}

/// Custom-tag equality: two tags spelling the same wire string are equal
/// under the tag equality relation, however each was constructed — in
/// particular two `Other` tags built from separately allocated strings
/// holding the same characters.
pub proof fn lemma_wire_equality(a: UniformDataType, b: UniformDataType)
    requires
        a.wire_spec() == b.wire_spec(),
    ensures
        a.eq_spec(&b),
        b.eq_spec(&a),
{
}

#[verifier::rlimit(100)]
proof fn nul_free_chunk_0()
    ensures
        !has_nul(encode_utf8((UniformDataType::Entity).wire_spec())),
        !has_nul(encode_utf8((UniformDataType::Object).wire_spec())),
        !has_nul(encode_utf8((UniformDataType::CompositeObject).wire_spec())),
        !has_nul(encode_utf8((UniformDataType::Text).wire_spec())),
        !has_nul(encode_utf8((UniformDataType::PlainText).wire_spec())),
        !has_nul(encode_utf8((UniformDataType::Html).wire_spec())),
        !has_nul(encode_utf8((UniformDataType::Hyperlink).wire_spec())),
        !has_nul(encode_utf8((UniformDataType::Xml).wire_spec())),
        !has_nul(encode_utf8((UniformDataType::SourceCode).wire_spec())),
        !has_nul(encode_utf8((UniformDataType::Script).wire_spec())),
        !has_nul(encode_utf8((UniformDataType::ShellScript).wire_spec())),
        !has_nul(encode_utf8((UniformDataType::CshScript).wire_spec())),
        !has_nul(encode_utf8((UniformDataType::PerlScript).wire_spec())),
        !has_nul(encode_utf8((UniformDataType::PhpScript).wire_spec())),
        !has_nul(encode_utf8((UniformDataType::PythonScript).wire_spec())),
        !has_nul(encode_utf8((UniformDataType::RubyScript).wire_spec())),
        !has_nul(encode_utf8((UniformDataType::TypeScript).wire_spec())),
        !has_nul(encode_utf8((UniformDataType::JavaScript).wire_spec())),
        !has_nul(encode_utf8((UniformDataType::CHeader).wire_spec())),
        !has_nul(encode_utf8((UniformDataType::CSource).wire_spec())),
        !has_nul(encode_utf8((UniformDataType::CPlusPlusHeader).wire_spec())),
        !has_nul(encode_utf8((UniformDataType::CPlusPlusSource).wire_spec())),
        !has_nul(encode_utf8((UniformDataType::JavaSource).wire_spec())),
        !has_nul(encode_utf8((UniformDataType::Ebook).wire_spec())),
        !has_nul(encode_utf8((UniformDataType::Epub).wire_spec())),
{
    reveal_strlit("general.entity");
    reveal_strlit("general.object");
    reveal_strlit("general.composite-object");
    reveal_strlit("general.text");
    reveal_strlit("general.plain-text");
    reveal_strlit("general.html");
    reveal_strlit("general.hyperlink");
    reveal_strlit("general.xml");
    reveal_strlit("general.source-code");
    reveal_strlit("general.script");
    reveal_strlit("general.shell-script");
    reveal_strlit("general.csh-script");
    reveal_strlit("general.perl-script");
    reveal_strlit("general.php-script");
    reveal_strlit("general.python-script");
    reveal_strlit("general.ruby-script");
    reveal_strlit("general.type-script");
    reveal_strlit("general.java-script");
    reveal_strlit("general.c-header");
    reveal_strlit("general.c-source");
    reveal_strlit("general.c-plus-plus-header");
    reveal_strlit("general.c-plus-plus-source");
    reveal_strlit("general.java-source");
    reveal_strlit("general.ebook");
    reveal_strlit("general.epub");
    assert("general.entity"@.len() == 14);
    assert(vstd::utf8::is_ascii_chars("general.entity"@));
    vstd::utf8::is_ascii_chars_encode_utf8("general.entity"@);
    assert(forall|i: int| 0 <= i < encode_utf8("general.entity"@).len() ==> encode_utf8("general.entity"@)[i] != 0u8);
    assert("general.object"@.len() == 14);
    assert(vstd::utf8::is_ascii_chars("general.object"@));
    vstd::utf8::is_ascii_chars_encode_utf8("general.object"@);
    assert(forall|i: int| 0 <= i < encode_utf8("general.object"@).len() ==> encode_utf8("general.object"@)[i] != 0u8);
    assert("general.composite-object"@.len() == 24);
    assert(vstd::utf8::is_ascii_chars("general.composite-object"@));
    vstd::utf8::is_ascii_chars_encode_utf8("general.composite-object"@);
    assert(forall|i: int| 0 <= i < encode_utf8("general.composite-object"@).len() ==> encode_utf8("general.composite-object"@)[i] != 0u8);
    assert("general.text"@.len() == 12);
    assert(vstd::utf8::is_ascii_chars("general.text"@));
    vstd::utf8::is_ascii_chars_encode_utf8("general.text"@);
    assert(forall|i: int| 0 <= i < encode_utf8("general.text"@).len() ==> encode_utf8("general.text"@)[i] != 0u8);
    assert("general.plain-text"@.len() == 18);
    assert(vstd::utf8::is_ascii_chars("general.plain-text"@));
    vstd::utf8::is_ascii_chars_encode_utf8("general.plain-text"@);
    assert(forall|i: int| 0 <= i < encode_utf8("general.plain-text"@).len() ==> encode_utf8("general.plain-text"@)[i] != 0u8);
    assert("general.html"@.len() == 12);
    assert(vstd::utf8::is_ascii_chars("general.html"@));
    vstd::utf8::is_ascii_chars_encode_utf8("general.html"@);
    assert(forall|i: int| 0 <= i < encode_utf8("general.html"@).len() ==> encode_utf8("general.html"@)[i] != 0u8);
    assert("general.hyperlink"@.len() == 17);
    assert(vstd::utf8::is_ascii_chars("general.hyperlink"@));
    vstd::utf8::is_ascii_chars_encode_utf8("general.hyperlink"@);
    assert(forall|i: int| 0 <= i < encode_utf8("general.hyperlink"@).len() ==> encode_utf8("general.hyperlink"@)[i] != 0u8);
    assert("general.xml"@.len() == 11);
    assert(vstd::utf8::is_ascii_chars("general.xml"@));
    vstd::utf8::is_ascii_chars_encode_utf8("general.xml"@);
    assert(forall|i: int| 0 <= i < encode_utf8("general.xml"@).len() ==> encode_utf8("general.xml"@)[i] != 0u8);
    assert("general.source-code"@.len() == 19);
    assert(vstd::utf8::is_ascii_chars("general.source-code"@));
    vstd::utf8::is_ascii_chars_encode_utf8("general.source-code"@);
    assert(forall|i: int| 0 <= i < encode_utf8("general.source-code"@).len() ==> encode_utf8("general.source-code"@)[i] != 0u8);
    assert("general.script"@.len() == 14);
    assert(vstd::utf8::is_ascii_chars("general.script"@));
    vstd::utf8::is_ascii_chars_encode_utf8("general.script"@);
    assert(forall|i: int| 0 <= i < encode_utf8("general.script"@).len() ==> encode_utf8("general.script"@)[i] != 0u8);
    assert("general.shell-script"@.len() == 20);
    assert(vstd::utf8::is_ascii_chars("general.shell-script"@));
    vstd::utf8::is_ascii_chars_encode_utf8("general.shell-script"@);
    assert(forall|i: int| 0 <= i < encode_utf8("general.shell-script"@).len() ==> encode_utf8("general.shell-script"@)[i] != 0u8);
    assert("general.csh-script"@.len() == 18);
    assert(vstd::utf8::is_ascii_chars("general.csh-script"@));
    vstd::utf8::is_ascii_chars_encode_utf8("general.csh-script"@);
    assert(forall|i: int| 0 <= i < encode_utf8("general.csh-script"@).len() ==> encode_utf8("general.csh-script"@)[i] != 0u8);
    assert("general.perl-script"@.len() == 19);
    assert(vstd::utf8::is_ascii_chars("general.perl-script"@));
    vstd::utf8::is_ascii_chars_encode_utf8("general.perl-script"@);
    assert(forall|i: int| 0 <= i < encode_utf8("general.perl-script"@).len() ==> encode_utf8("general.perl-script"@)[i] != 0u8);
    assert("general.php-script"@.len() == 18);
    assert(vstd::utf8::is_ascii_chars("general.php-script"@));
    vstd::utf8::is_ascii_chars_encode_utf8("general.php-script"@);
    assert(forall|i: int| 0 <= i < encode_utf8("general.php-script"@).len() ==> encode_utf8("general.php-script"@)[i] != 0u8);
    assert("general.python-script"@.len() == 21);
    assert(vstd::utf8::is_ascii_chars("general.python-script"@));
    vstd::utf8::is_ascii_chars_encode_utf8("general.python-script"@);
    assert(forall|i: int| 0 <= i < encode_utf8("general.python-script"@).len() ==> encode_utf8("general.python-script"@)[i] != 0u8);
    assert("general.ruby-script"@.len() == 19);
    assert(vstd::utf8::is_ascii_chars("general.ruby-script"@));
    vstd::utf8::is_ascii_chars_encode_utf8("general.ruby-script"@);
    assert(forall|i: int| 0 <= i < encode_utf8("general.ruby-script"@).len() ==> encode_utf8("general.ruby-script"@)[i] != 0u8);
    assert("general.type-script"@.len() == 19);
    assert(vstd::utf8::is_ascii_chars("general.type-script"@));
    vstd::utf8::is_ascii_chars_encode_utf8("general.type-script"@);
    assert(forall|i: int| 0 <= i < encode_utf8("general.type-script"@).len() ==> encode_utf8("general.type-script"@)[i] != 0u8);
    assert("general.java-script"@.len() == 19);
    assert(vstd::utf8::is_ascii_chars("general.java-script"@));
    vstd::utf8::is_ascii_chars_encode_utf8("general.java-script"@);
    assert(forall|i: int| 0 <= i < encode_utf8("general.java-script"@).len() ==> encode_utf8("general.java-script"@)[i] != 0u8);
    assert("general.c-header"@.len() == 16);
    assert(vstd::utf8::is_ascii_chars("general.c-header"@));
    vstd::utf8::is_ascii_chars_encode_utf8("general.c-header"@);
    assert(forall|i: int| 0 <= i < encode_utf8("general.c-header"@).len() ==> encode_utf8("general.c-header"@)[i] != 0u8);
    assert("general.c-source"@.len() == 16);
    assert(vstd::utf8::is_ascii_chars("general.c-source"@));
    vstd::utf8::is_ascii_chars_encode_utf8("general.c-source"@);
    assert(forall|i: int| 0 <= i < encode_utf8("general.c-source"@).len() ==> encode_utf8("general.c-source"@)[i] != 0u8);
    assert("general.c-plus-plus-header"@.len() == 26);
    assert(vstd::utf8::is_ascii_chars("general.c-plus-plus-header"@));
    vstd::utf8::is_ascii_chars_encode_utf8("general.c-plus-plus-header"@);
    assert(forall|i: int| 0 <= i < encode_utf8("general.c-plus-plus-header"@).len() ==> encode_utf8("general.c-plus-plus-header"@)[i] != 0u8);
    assert("general.c-plus-plus-source"@.len() == 26);
    assert(vstd::utf8::is_ascii_chars("general.c-plus-plus-source"@));
    vstd::utf8::is_ascii_chars_encode_utf8("general.c-plus-plus-source"@);
    assert(forall|i: int| 0 <= i < encode_utf8("general.c-plus-plus-source"@).len() ==> encode_utf8("general.c-plus-plus-source"@)[i] != 0u8);
    assert("general.java-source"@.len() == 19);
    assert(vstd::utf8::is_ascii_chars("general.java-source"@));
    vstd::utf8::is_ascii_chars_encode_utf8("general.java-source"@);
    assert(forall|i: int| 0 <= i < encode_utf8("general.java-source"@).len() ==> encode_utf8("general.java-source"@)[i] != 0u8);
    assert("general.ebook"@.len() == 13);
    assert(vstd::utf8::is_ascii_chars("general.ebook"@));
    vstd::utf8::is_ascii_chars_encode_utf8("general.ebook"@);
    assert(forall|i: int| 0 <= i < encode_utf8("general.ebook"@).len() ==> encode_utf8("general.ebook"@)[i] != 0u8);
    assert("general.epub"@.len() == 12);
    assert(vstd::utf8::is_ascii_chars("general.epub"@));
    vstd::utf8::is_ascii_chars_encode_utf8("general.epub"@);
    assert(forall|i: int| 0 <= i < encode_utf8("general.epub"@).len() ==> encode_utf8("general.epub"@)[i] != 0u8);
}

#[verifier::rlimit(100)]
proof fn nul_free_chunk_1()
    ensures
        !has_nul(encode_utf8((UniformDataType::Azw).wire_spec())),
        !has_nul(encode_utf8((UniformDataType::Azw3).wire_spec())),
        !has_nul(encode_utf8((UniformDataType::Kfx).wire_spec())),
        !has_nul(encode_utf8((UniformDataType::Mobi).wire_spec())),
        !has_nul(encode_utf8((UniformDataType::Media).wire_spec())),
        !has_nul(encode_utf8((UniformDataType::Image).wire_spec())),
        !has_nul(encode_utf8((UniformDataType::Jpeg).wire_spec())),
        !has_nul(encode_utf8((UniformDataType::Png).wire_spec())),
        !has_nul(encode_utf8((UniformDataType::RawImage).wire_spec())),
        !has_nul(encode_utf8((UniformDataType::Tiff).wire_spec())),
        !has_nul(encode_utf8((UniformDataType::Bmp).wire_spec())),
        !has_nul(encode_utf8((UniformDataType::Ico).wire_spec())),
        !has_nul(encode_utf8((UniformDataType::PhotoshopImage).wire_spec())),
        !has_nul(encode_utf8((UniformDataType::AiImage).wire_spec())),
        !has_nul(encode_utf8((UniformDataType::WordDoc).wire_spec())),
        !has_nul(encode_utf8((UniformDataType::Excel).wire_spec())),
        !has_nul(encode_utf8((UniformDataType::Ppt).wire_spec())),
        !has_nul(encode_utf8((UniformDataType::Pdf).wire_spec())),
        !has_nul(encode_utf8((UniformDataType::Postscript).wire_spec())),
        !has_nul(encode_utf8((UniformDataType::EncapsulatedPostscript).wire_spec())),
        !has_nul(encode_utf8((UniformDataType::Video).wire_spec())),
        !has_nul(encode_utf8((UniformDataType::Avi).wire_spec())),
        !has_nul(encode_utf8((UniformDataType::Mpeg).wire_spec())),
        !has_nul(encode_utf8((UniformDataType::Mpeg4).wire_spec())),
        !has_nul(encode_utf8((UniformDataType::Video3gpp).wire_spec())),
{
    reveal_strlit("com.amazon.azw");
    reveal_strlit("com.amazon.azw3");
    reveal_strlit("com.amazon.kfx");
    reveal_strlit("com.amazon.mobi");
    reveal_strlit("general.media");
    reveal_strlit("general.image");
    reveal_strlit("general.jpeg");
    reveal_strlit("general.png");
    reveal_strlit("general.raw-image");
    reveal_strlit("general.tiff");
    reveal_strlit("com.microsoft.bmp");
    reveal_strlit("com.microsoft.ico");
    reveal_strlit("com.adobe.photoshop-image");
    reveal_strlit("com.adobe.illustrator.ai-image");
    reveal_strlit("com.microsoft.word.doc");
    reveal_strlit("com.microsoft.excel.xls");
    reveal_strlit("com.microsoft.powerpoint.ppt");
    reveal_strlit("com.adobe.pdf");
    reveal_strlit("com.adobe.postscript");
    reveal_strlit("com.adobe.encapsulated-postscript");
    reveal_strlit("general.video");
    reveal_strlit("general.avi");
    reveal_strlit("general.mpeg");
    reveal_strlit("general.mpeg-4");
    reveal_strlit("general.3gpp");
    assert("com.amazon.azw"@.len() == 14);
    assert(vstd::utf8::is_ascii_chars("com.amazon.azw"@));
    vstd::utf8::is_ascii_chars_encode_utf8("com.amazon.azw"@);
    assert(forall|i: int| 0 <= i < encode_utf8("com.amazon.azw"@).len() ==> encode_utf8("com.amazon.azw"@)[i] != 0u8);
    assert("com.amazon.azw3"@.len() == 15);
    assert(vstd::utf8::is_ascii_chars("com.amazon.azw3"@));
    vstd::utf8::is_ascii_chars_encode_utf8("com.amazon.azw3"@);
    assert(forall|i: int| 0 <= i < encode_utf8("com.amazon.azw3"@).len() ==> encode_utf8("com.amazon.azw3"@)[i] != 0u8);
    assert("com.amazon.kfx"@.len() == 14);
    assert(vstd::utf8::is_ascii_chars("com.amazon.kfx"@));
    vstd::utf8::is_ascii_chars_encode_utf8("com.amazon.kfx"@);
    assert(forall|i: int| 0 <= i < encode_utf8("com.amazon.kfx"@).len() ==> encode_utf8("com.amazon.kfx"@)[i] != 0u8);
    assert("com.amazon.mobi"@.len() == 15);
    assert(vstd::utf8::is_ascii_chars("com.amazon.mobi"@));
    vstd::utf8::is_ascii_chars_encode_utf8("com.amazon.mobi"@);
    assert(forall|i: int| 0 <= i < encode_utf8("com.amazon.mobi"@).len() ==> encode_utf8("com.amazon.mobi"@)[i] != 0u8);
    assert("general.media"@.len() == 13);
    assert(vstd::utf8::is_ascii_chars("general.media"@));
    vstd::utf8::is_ascii_chars_encode_utf8("general.media"@);
    assert(forall|i: int| 0 <= i < encode_utf8("general.media"@).len() ==> encode_utf8("general.media"@)[i] != 0u8);
    assert("general.image"@.len() == 13);
    assert(vstd::utf8::is_ascii_chars("general.image"@));
    vstd::utf8::is_ascii_chars_encode_utf8("general.image"@);
    assert(forall|i: int| 0 <= i < encode_utf8("general.image"@).len() ==> encode_utf8("general.image"@)[i] != 0u8);
    assert("general.jpeg"@.len() == 12);
    assert(vstd::utf8::is_ascii_chars("general.jpeg"@));
    vstd::utf8::is_ascii_chars_encode_utf8("general.jpeg"@);
    assert(forall|i: int| 0 <= i < encode_utf8("general.jpeg"@).len() ==> encode_utf8("general.jpeg"@)[i] != 0u8);
    assert("general.png"@.len() == 11);
    assert(vstd::utf8::is_ascii_chars("general.png"@));
    vstd::utf8::is_ascii_chars_encode_utf8("general.png"@);
    assert(forall|i: int| 0 <= i < encode_utf8("general.png"@).len() ==> encode_utf8("general.png"@)[i] != 0u8);
    assert("general.raw-image"@.len() == 17);
    assert(vstd::utf8::is_ascii_chars("general.raw-image"@));
    vstd::utf8::is_ascii_chars_encode_utf8("general.raw-image"@);
    assert(forall|i: int| 0 <= i < encode_utf8("general.raw-image"@).len() ==> encode_utf8("general.raw-image"@)[i] != 0u8);
    assert("general.tiff"@.len() == 12);
    assert(vstd::utf8::is_ascii_chars("general.tiff"@));
    vstd::utf8::is_ascii_chars_encode_utf8("general.tiff"@);
    assert(forall|i: int| 0 <= i < encode_utf8("general.tiff"@).len() ==> encode_utf8("general.tiff"@)[i] != 0u8);
    assert("com.microsoft.bmp"@.len() == 17);
    assert(vstd::utf8::is_ascii_chars("com.microsoft.bmp"@));
    vstd::utf8::is_ascii_chars_encode_utf8("com.microsoft.bmp"@);
    assert(forall|i: int| 0 <= i < encode_utf8("com.microsoft.bmp"@).len() ==> encode_utf8("com.microsoft.bmp"@)[i] != 0u8);
    assert("com.microsoft.ico"@.len() == 17);
    assert(vstd::utf8::is_ascii_chars("com.microsoft.ico"@));
    vstd::utf8::is_ascii_chars_encode_utf8("com.microsoft.ico"@);
    assert(forall|i: int| 0 <= i < encode_utf8("com.microsoft.ico"@).len() ==> encode_utf8("com.microsoft.ico"@)[i] != 0u8);
    assert("com.adobe.photoshop-image"@.len() == 25);
    assert(vstd::utf8::is_ascii_chars("com.adobe.photoshop-image"@));
    vstd::utf8::is_ascii_chars_encode_utf8("com.adobe.photoshop-image"@);
    assert(forall|i: int| 0 <= i < encode_utf8("com.adobe.photoshop-image"@).len() ==> encode_utf8("com.adobe.photoshop-image"@)[i] != 0u8);
    assert("com.adobe.illustrator.ai-image"@.len() == 30);
    assert(vstd::utf8::is_ascii_chars("com.adobe.illustrator.ai-image"@));
    vstd::utf8::is_ascii_chars_encode_utf8("com.adobe.illustrator.ai-image"@);
    assert(forall|i: int| 0 <= i < encode_utf8("com.adobe.illustrator.ai-image"@).len() ==> encode_utf8("com.adobe.illustrator.ai-image"@)[i] != 0u8);
    assert("com.microsoft.word.doc"@.len() == 22);
    assert(vstd::utf8::is_ascii_chars("com.microsoft.word.doc"@));
    vstd::utf8::is_ascii_chars_encode_utf8("com.microsoft.word.doc"@);
    assert(forall|i: int| 0 <= i < encode_utf8("com.microsoft.word.doc"@).len() ==> encode_utf8("com.microsoft.word.doc"@)[i] != 0u8);
    assert("com.microsoft.excel.xls"@.len() == 23);
    assert(vstd::utf8::is_ascii_chars("com.microsoft.excel.xls"@));
    vstd::utf8::is_ascii_chars_encode_utf8("com.microsoft.excel.xls"@);
    assert(forall|i: int| 0 <= i < encode_utf8("com.microsoft.excel.xls"@).len() ==> encode_utf8("com.microsoft.excel.xls"@)[i] != 0u8);
    assert("com.microsoft.powerpoint.ppt"@.len() == 28);
    assert(vstd::utf8::is_ascii_chars("com.microsoft.powerpoint.ppt"@));
    vstd::utf8::is_ascii_chars_encode_utf8("com.microsoft.powerpoint.ppt"@);
    assert(forall|i: int| 0 <= i < encode_utf8("com.microsoft.powerpoint.ppt"@).len() ==> encode_utf8("com.microsoft.powerpoint.ppt"@)[i] != 0u8);
    assert("com.adobe.pdf"@.len() == 13);
    assert(vstd::utf8::is_ascii_chars("com.adobe.pdf"@));
    vstd::utf8::is_ascii_chars_encode_utf8("com.adobe.pdf"@);
    assert(forall|i: int| 0 <= i < encode_utf8("com.adobe.pdf"@).len() ==> encode_utf8("com.adobe.pdf"@)[i] != 0u8);
    assert("com.adobe.postscript"@.len() == 20);
    assert(vstd::utf8::is_ascii_chars("com.adobe.postscript"@));
    vstd::utf8::is_ascii_chars_encode_utf8("com.adobe.postscript"@);
    assert(forall|i: int| 0 <= i < encode_utf8("com.adobe.postscript"@).len() ==> encode_utf8("com.adobe.postscript"@)[i] != 0u8);
    assert("com.adobe.encapsulated-postscript"@.len() == 33);
    assert(vstd::utf8::is_ascii_chars("com.adobe.encapsulated-postscript"@));
    vstd::utf8::is_ascii_chars_encode_utf8("com.adobe.encapsulated-postscript"@);
    assert(forall|i: int| 0 <= i < encode_utf8("com.adobe.encapsulated-postscript"@).len() ==> encode_utf8("com.adobe.encapsulated-postscript"@)[i] != 0u8);
    assert("general.video"@.len() == 13);
    assert(vstd::utf8::is_ascii_chars("general.video"@));
    vstd::utf8::is_ascii_chars_encode_utf8("general.video"@);
    assert(forall|i: int| 0 <= i < encode_utf8("general.video"@).len() ==> encode_utf8("general.video"@)[i] != 0u8);
    assert("general.avi"@.len() == 11);
    assert(vstd::utf8::is_ascii_chars("general.avi"@));
    vstd::utf8::is_ascii_chars_encode_utf8("general.avi"@);
    assert(forall|i: int| 0 <= i < encode_utf8("general.avi"@).len() ==> encode_utf8("general.avi"@)[i] != 0u8);
    assert("general.mpeg"@.len() == 12);
    assert(vstd::utf8::is_ascii_chars("general.mpeg"@));
    vstd::utf8::is_ascii_chars_encode_utf8("general.mpeg"@);
    assert(forall|i: int| 0 <= i < encode_utf8("general.mpeg"@).len() ==> encode_utf8("general.mpeg"@)[i] != 0u8);
    assert("general.mpeg-4"@.len() == 14);
    assert(vstd::utf8::is_ascii_chars("general.mpeg-4"@));
    vstd::utf8::is_ascii_chars_encode_utf8("general.mpeg-4"@);
    assert(forall|i: int| 0 <= i < encode_utf8("general.mpeg-4"@).len() ==> encode_utf8("general.mpeg-4"@)[i] != 0u8);
    assert("general.3gpp"@.len() == 12);
    assert(vstd::utf8::is_ascii_chars("general.3gpp"@));
    vstd::utf8::is_ascii_chars_encode_utf8("general.3gpp"@);
    assert(forall|i: int| 0 <= i < encode_utf8("general.3gpp"@).len() ==> encode_utf8("general.3gpp"@)[i] != 0u8);
}

#[verifier::rlimit(100)]
proof fn nul_free_chunk_2()
    ensures
        !has_nul(encode_utf8((UniformDataType::Video3gpp2).wire_spec())),
        !has_nul(encode_utf8((UniformDataType::WindowsMediaWm).wire_spec())),
        !has_nul(encode_utf8((UniformDataType::WindowsMediaWmv).wire_spec())),
        !has_nul(encode_utf8((UniformDataType::WindowsMediaWmp).wire_spec())),
        !has_nul(encode_utf8((UniformDataType::Audio).wire_spec())),
        !has_nul(encode_utf8((UniformDataType::Aac).wire_spec())),
        !has_nul(encode_utf8((UniformDataType::Aiff).wire_spec())),
        !has_nul(encode_utf8((UniformDataType::Alac).wire_spec())),
        !has_nul(encode_utf8((UniformDataType::Flac).wire_spec())),
        !has_nul(encode_utf8((UniformDataType::Mp3).wire_spec())),
        !has_nul(encode_utf8((UniformDataType::Ogg).wire_spec())),
        !has_nul(encode_utf8((UniformDataType::Pcm).wire_spec())),
        !has_nul(encode_utf8((UniformDataType::WindowsMediaWma).wire_spec())),
        !has_nul(encode_utf8((UniformDataType::WaveformAudio).wire_spec())),
        !has_nul(encode_utf8((UniformDataType::WindowsMediaWmx).wire_spec())),
        !has_nul(encode_utf8((UniformDataType::WindowsMediaWvx).wire_spec())),
        !has_nul(encode_utf8((UniformDataType::WindowsMediaWax).wire_spec())),
        !has_nul(encode_utf8((UniformDataType::GeneralFile).wire_spec())),
        !has_nul(encode_utf8((UniformDataType::Directory).wire_spec())),
        !has_nul(encode_utf8((UniformDataType::Folder).wire_spec())),
        !has_nul(encode_utf8((UniformDataType::Symlink).wire_spec())),
        !has_nul(encode_utf8((UniformDataType::Archive).wire_spec())),
        !has_nul(encode_utf8((UniformDataType::Bz2Archive).wire_spec())),
        !has_nul(encode_utf8((UniformDataType::DiskImage).wire_spec())),
        !has_nul(encode_utf8((UniformDataType::TarArchive).wire_spec())),
{
    reveal_strlit("general.3gpp2");
    reveal_strlit("com.microsoft.windows-media-wm");
    reveal_strlit("com.microsoft.windows-media-wmv");
    reveal_strlit("com.microsoft.windows-media-wmp");
    reveal_strlit("general.audio");
    reveal_strlit("general.aac");
    reveal_strlit("general.aiff");
    reveal_strlit("general.alac");
    reveal_strlit("general.flac");
    reveal_strlit("general.mp3");
    reveal_strlit("general.ogg");
    reveal_strlit("general.pcm");
    reveal_strlit("com.microsoft.windows-media-wma");
    reveal_strlit("com.microsoft.waveform-audio");
    reveal_strlit("com.microsoft.windows-media-wmx");
    reveal_strlit("com.microsoft.windows-media-wvx");
    reveal_strlit("com.microsoft.windows-media-wax");
    reveal_strlit("general.file");
    reveal_strlit("general.directory");
    reveal_strlit("general.folder");
    reveal_strlit("general.symlink");
    reveal_strlit("general.archive");
    reveal_strlit("general.bz2-archive");
    reveal_strlit("general.disk-image");
    reveal_strlit("general.tar-archive");
    assert("general.3gpp2"@.len() == 13);
    assert(vstd::utf8::is_ascii_chars("general.3gpp2"@));
    vstd::utf8::is_ascii_chars_encode_utf8("general.3gpp2"@);
    assert(forall|i: int| 0 <= i < encode_utf8("general.3gpp2"@).len() ==> encode_utf8("general.3gpp2"@)[i] != 0u8);
    assert("com.microsoft.windows-media-wm"@.len() == 30);
    assert(vstd::utf8::is_ascii_chars("com.microsoft.windows-media-wm"@));
    vstd::utf8::is_ascii_chars_encode_utf8("com.microsoft.windows-media-wm"@);
    assert(forall|i: int| 0 <= i < encode_utf8("com.microsoft.windows-media-wm"@).len() ==> encode_utf8("com.microsoft.windows-media-wm"@)[i] != 0u8);
    assert("com.microsoft.windows-media-wmv"@.len() == 31);
    assert(vstd::utf8::is_ascii_chars("com.microsoft.windows-media-wmv"@));
    vstd::utf8::is_ascii_chars_encode_utf8("com.microsoft.windows-media-wmv"@);
    assert(forall|i: int| 0 <= i < encode_utf8("com.microsoft.windows-media-wmv"@).len() ==> encode_utf8("com.microsoft.windows-media-wmv"@)[i] != 0u8);
    assert("com.microsoft.windows-media-wmp"@.len() == 31);
    assert(vstd::utf8::is_ascii_chars("com.microsoft.windows-media-wmp"@));
    vstd::utf8::is_ascii_chars_encode_utf8("com.microsoft.windows-media-wmp"@);
    assert(forall|i: int| 0 <= i < encode_utf8("com.microsoft.windows-media-wmp"@).len() ==> encode_utf8("com.microsoft.windows-media-wmp"@)[i] != 0u8);
    assert("general.audio"@.len() == 13);
    assert(vstd::utf8::is_ascii_chars("general.audio"@));
    vstd::utf8::is_ascii_chars_encode_utf8("general.audio"@);
    assert(forall|i: int| 0 <= i < encode_utf8("general.audio"@).len() ==> encode_utf8("general.audio"@)[i] != 0u8);
    assert("general.aac"@.len() == 11);
    assert(vstd::utf8::is_ascii_chars("general.aac"@));
    vstd::utf8::is_ascii_chars_encode_utf8("general.aac"@);
    assert(forall|i: int| 0 <= i < encode_utf8("general.aac"@).len() ==> encode_utf8("general.aac"@)[i] != 0u8);
    assert("general.aiff"@.len() == 12);
    assert(vstd::utf8::is_ascii_chars("general.aiff"@));
    vstd::utf8::is_ascii_chars_encode_utf8("general.aiff"@);
    assert(forall|i: int| 0 <= i < encode_utf8("general.aiff"@).len() ==> encode_utf8("general.aiff"@)[i] != 0u8);
    assert("general.alac"@.len() == 12);
    assert(vstd::utf8::is_ascii_chars("general.alac"@));
    vstd::utf8::is_ascii_chars_encode_utf8("general.alac"@);
    assert(forall|i: int| 0 <= i < encode_utf8("general.alac"@).len() ==> encode_utf8("general.alac"@)[i] != 0u8);
    assert("general.flac"@.len() == 12);
    assert(vstd::utf8::is_ascii_chars("general.flac"@));
    vstd::utf8::is_ascii_chars_encode_utf8("general.flac"@);
    assert(forall|i: int| 0 <= i < encode_utf8("general.flac"@).len() ==> encode_utf8("general.flac"@)[i] != 0u8);
    assert("general.mp3"@.len() == 11);
    assert(vstd::utf8::is_ascii_chars("general.mp3"@));
    vstd::utf8::is_ascii_chars_encode_utf8("general.mp3"@);
    assert(forall|i: int| 0 <= i < encode_utf8("general.mp3"@).len() ==> encode_utf8("general.mp3"@)[i] != 0u8);
    assert("general.ogg"@.len() == 11);
    assert(vstd::utf8::is_ascii_chars("general.ogg"@));
    vstd::utf8::is_ascii_chars_encode_utf8("general.ogg"@);
    assert(forall|i: int| 0 <= i < encode_utf8("general.ogg"@).len() ==> encode_utf8("general.ogg"@)[i] != 0u8);
    assert("general.pcm"@.len() == 11);
    assert(vstd::utf8::is_ascii_chars("general.pcm"@));
    vstd::utf8::is_ascii_chars_encode_utf8("general.pcm"@);
    assert(forall|i: int| 0 <= i < encode_utf8("general.pcm"@).len() ==> encode_utf8("general.pcm"@)[i] != 0u8);
    assert("com.microsoft.windows-media-wma"@.len() == 31);
    assert(vstd::utf8::is_ascii_chars("com.microsoft.windows-media-wma"@));
    vstd::utf8::is_ascii_chars_encode_utf8("com.microsoft.windows-media-wma"@);
    assert(forall|i: int| 0 <= i < encode_utf8("com.microsoft.windows-media-wma"@).len() ==> encode_utf8("com.microsoft.windows-media-wma"@)[i] != 0u8);
    assert("com.microsoft.waveform-audio"@.len() == 28);
    assert(vstd::utf8::is_ascii_chars("com.microsoft.waveform-audio"@));
    vstd::utf8::is_ascii_chars_encode_utf8("com.microsoft.waveform-audio"@);
    assert(forall|i: int| 0 <= i < encode_utf8("com.microsoft.waveform-audio"@).len() ==> encode_utf8("com.microsoft.waveform-audio"@)[i] != 0u8);
    assert("com.microsoft.windows-media-wmx"@.len() == 31);
    assert(vstd::utf8::is_ascii_chars("com.microsoft.windows-media-wmx"@));
    vstd::utf8::is_ascii_chars_encode_utf8("com.microsoft.windows-media-wmx"@);
    assert(forall|i: int| 0 <= i < encode_utf8("com.microsoft.windows-media-wmx"@).len() ==> encode_utf8("com.microsoft.windows-media-wmx"@)[i] != 0u8);
    assert("com.microsoft.windows-media-wvx"@.len() == 31);
    assert(vstd::utf8::is_ascii_chars("com.microsoft.windows-media-wvx"@));
    vstd::utf8::is_ascii_chars_encode_utf8("com.microsoft.windows-media-wvx"@);
    assert(forall|i: int| 0 <= i < encode_utf8("com.microsoft.windows-media-wvx"@).len() ==> encode_utf8("com.microsoft.windows-media-wvx"@)[i] != 0u8);
    assert("com.microsoft.windows-media-wax"@.len() == 31);
    assert(vstd::utf8::is_ascii_chars("com.microsoft.windows-media-wax"@));
    vstd::utf8::is_ascii_chars_encode_utf8("com.microsoft.windows-media-wax"@);
    assert(forall|i: int| 0 <= i < encode_utf8("com.microsoft.windows-media-wax"@).len() ==> encode_utf8("com.microsoft.windows-media-wax"@)[i] != 0u8);
    assert("general.file"@.len() == 12);
    assert(vstd::utf8::is_ascii_chars("general.file"@));
    vstd::utf8::is_ascii_chars_encode_utf8("general.file"@);
    assert(forall|i: int| 0 <= i < encode_utf8("general.file"@).len() ==> encode_utf8("general.file"@)[i] != 0u8);
    assert("general.directory"@.len() == 17);
    assert(vstd::utf8::is_ascii_chars("general.directory"@));
    vstd::utf8::is_ascii_chars_encode_utf8("general.directory"@);
    assert(forall|i: int| 0 <= i < encode_utf8("general.directory"@).len() ==> encode_utf8("general.directory"@)[i] != 0u8);
    assert("general.folder"@.len() == 14);
    assert(vstd::utf8::is_ascii_chars("general.folder"@));
    vstd::utf8::is_ascii_chars_encode_utf8("general.folder"@);
    assert(forall|i: int| 0 <= i < encode_utf8("general.folder"@).len() ==> encode_utf8("general.folder"@)[i] != 0u8);
    assert("general.symlink"@.len() == 15);
    assert(vstd::utf8::is_ascii_chars("general.symlink"@));
    vstd::utf8::is_ascii_chars_encode_utf8("general.symlink"@);
    assert(forall|i: int| 0 <= i < encode_utf8("general.symlink"@).len() ==> encode_utf8("general.symlink"@)[i] != 0u8);
    assert("general.archive"@.len() == 15);
    assert(vstd::utf8::is_ascii_chars("general.archive"@));
    vstd::utf8::is_ascii_chars_encode_utf8("general.archive"@);
    assert(forall|i: int| 0 <= i < encode_utf8("general.archive"@).len() ==> encode_utf8("general.archive"@)[i] != 0u8);
    assert("general.bz2-archive"@.len() == 19);
    assert(vstd::utf8::is_ascii_chars("general.bz2-archive"@));
    vstd::utf8::is_ascii_chars_encode_utf8("general.bz2-archive"@);
    assert(forall|i: int| 0 <= i < encode_utf8("general.bz2-archive"@).len() ==> encode_utf8("general.bz2-archive"@)[i] != 0u8);
    assert("general.disk-image"@.len() == 18);
    assert(vstd::utf8::is_ascii_chars("general.disk-image"@));
    vstd::utf8::is_ascii_chars_encode_utf8("general.disk-image"@);
    assert(forall|i: int| 0 <= i < encode_utf8("general.disk-image"@).len() ==> encode_utf8("general.disk-image"@)[i] != 0u8);
    assert("general.tar-archive"@.len() == 19);
    assert(vstd::utf8::is_ascii_chars("general.tar-archive"@));
    vstd::utf8::is_ascii_chars_encode_utf8("general.tar-archive"@);
    assert(forall|i: int| 0 <= i < encode_utf8("general.tar-archive"@).len() ==> encode_utf8("general.tar-archive"@)[i] != 0u8);
}

#[verifier::rlimit(100)]
proof fn nul_free_chunk_3()
    ensures
        !has_nul(encode_utf8((UniformDataType::ZipArchive).wire_spec())),
        !has_nul(encode_utf8((UniformDataType::JavaArchive).wire_spec())),
        !has_nul(encode_utf8((UniformDataType::GnuTarArchive).wire_spec())),
        !has_nul(encode_utf8((UniformDataType::GnuZipArchive).wire_spec())),
        !has_nul(encode_utf8((UniformDataType::GnuZipTarArchive).wire_spec())),
        !has_nul(encode_utf8((UniformDataType::Calendar).wire_spec())),
        !has_nul(encode_utf8((UniformDataType::Contact).wire_spec())),
        !has_nul(encode_utf8((UniformDataType::Database).wire_spec())),
        !has_nul(encode_utf8((UniformDataType::Message).wire_spec())),
        !has_nul(encode_utf8((UniformDataType::Vcard).wire_spec())),
        !has_nul(encode_utf8((UniformDataType::Navigation).wire_spec())),
        !has_nul(encode_utf8((UniformDataType::Location).wire_spec())),
        !has_nul(encode_utf8((UniformDataType::OpenHarmonyForm).wire_spec())),
        !has_nul(encode_utf8((UniformDataType::OpenHarmonyAppItem).wire_spec())),
        !has_nul(encode_utf8((UniformDataType::OpenHarmonyPixelMap).wire_spec())),
        !has_nul(encode_utf8((UniformDataType::OpenHarmonyAtomicService).wire_spec())),
        !has_nul(encode_utf8((UniformDataType::OpenHarmonyPackage).wire_spec())),
        !has_nul(encode_utf8((UniformDataType::OpenHarmonyHap).wire_spec())),
        !has_nul(encode_utf8((UniformDataType::Smil).wire_spec())),
        !has_nul(encode_utf8((UniformDataType::Markdown).wire_spec())),
        !has_nul(encode_utf8((UniformDataType::Fax).wire_spec())),
        !has_nul(encode_utf8((UniformDataType::JfxFax).wire_spec())),
        !has_nul(encode_utf8((UniformDataType::EfxFax).wire_spec())),
        !has_nul(encode_utf8((UniformDataType::XbitmapImage).wire_spec())),
        !has_nul(encode_utf8((UniformDataType::TgaImage).wire_spec())),
{
    reveal_strlit("general.zip-archive");
    reveal_strlit("com.sun.java-archive");
    reveal_strlit("org.gnu.gnu-tar-archive");
    reveal_strlit("org.gnu.gnu-zip-archive");
    reveal_strlit("org.gnu.gnu-zip-tar-archive");
    reveal_strlit("general.calendar");
    reveal_strlit("general.contact");
    reveal_strlit("general.database");
    reveal_strlit("general.message");
    reveal_strlit("general.vcard");
    reveal_strlit("general.navigation");
    reveal_strlit("general.location");
    reveal_strlit("openharmony.form");
    reveal_strlit("openharmony.app-item");
    reveal_strlit("openharmony.pixel-map");
    reveal_strlit("openharmony.atomic-service");
    reveal_strlit("openharmony.package");
    reveal_strlit("openharmony.hap");
    reveal_strlit("com.real.smil");
    reveal_strlit("general.markdown");
    reveal_strlit("general.fax");
    reveal_strlit("com.j2.jfx-fax");
    reveal_strlit("com.js.efx-fax");
    reveal_strlit("general.xbitmap-image");
    reveal_strlit("com.truevision.tga-image");
    assert("general.zip-archive"@.len() == 19);
    assert(vstd::utf8::is_ascii_chars("general.zip-archive"@));
    vstd::utf8::is_ascii_chars_encode_utf8("general.zip-archive"@);
    assert(forall|i: int| 0 <= i < encode_utf8("general.zip-archive"@).len() ==> encode_utf8("general.zip-archive"@)[i] != 0u8);
    assert("com.sun.java-archive"@.len() == 20);
    assert(vstd::utf8::is_ascii_chars("com.sun.java-archive"@));
    vstd::utf8::is_ascii_chars_encode_utf8("com.sun.java-archive"@);
    assert(forall|i: int| 0 <= i < encode_utf8("com.sun.java-archive"@).len() ==> encode_utf8("com.sun.java-archive"@)[i] != 0u8);
    assert("org.gnu.gnu-tar-archive"@.len() == 23);
    assert(vstd::utf8::is_ascii_chars("org.gnu.gnu-tar-archive"@));
    vstd::utf8::is_ascii_chars_encode_utf8("org.gnu.gnu-tar-archive"@);
    assert(forall|i: int| 0 <= i < encode_utf8("org.gnu.gnu-tar-archive"@).len() ==> encode_utf8("org.gnu.gnu-tar-archive"@)[i] != 0u8);
    assert("org.gnu.gnu-zip-archive"@.len() == 23);
    assert(vstd::utf8::is_ascii_chars("org.gnu.gnu-zip-archive"@));
    vstd::utf8::is_ascii_chars_encode_utf8("org.gnu.gnu-zip-archive"@);
    assert(forall|i: int| 0 <= i < encode_utf8("org.gnu.gnu-zip-archive"@).len() ==> encode_utf8("org.gnu.gnu-zip-archive"@)[i] != 0u8);
    assert("org.gnu.gnu-zip-tar-archive"@.len() == 27);
    assert(vstd::utf8::is_ascii_chars("org.gnu.gnu-zip-tar-archive"@));
    vstd::utf8::is_ascii_chars_encode_utf8("org.gnu.gnu-zip-tar-archive"@);
    assert(forall|i: int| 0 <= i < encode_utf8("org.gnu.gnu-zip-tar-archive"@).len() ==> encode_utf8("org.gnu.gnu-zip-tar-archive"@)[i] != 0u8);
    assert("general.calendar"@.len() == 16);
    assert(vstd::utf8::is_ascii_chars("general.calendar"@));
    vstd::utf8::is_ascii_chars_encode_utf8("general.calendar"@);
    assert(forall|i: int| 0 <= i < encode_utf8("general.calendar"@).len() ==> encode_utf8("general.calendar"@)[i] != 0u8);
    assert("general.contact"@.len() == 15);
    assert(vstd::utf8::is_ascii_chars("general.contact"@));
    vstd::utf8::is_ascii_chars_encode_utf8("general.contact"@);
    assert(forall|i: int| 0 <= i < encode_utf8("general.contact"@).len() ==> encode_utf8("general.contact"@)[i] != 0u8);
    assert("general.database"@.len() == 16);
    assert(vstd::utf8::is_ascii_chars("general.database"@));
    vstd::utf8::is_ascii_chars_encode_utf8("general.database"@);
    assert(forall|i: int| 0 <= i < encode_utf8("general.database"@).len() ==> encode_utf8("general.database"@)[i] != 0u8);
    assert("general.message"@.len() == 15);
    assert(vstd::utf8::is_ascii_chars("general.message"@));
    vstd::utf8::is_ascii_chars_encode_utf8("general.message"@);
    assert(forall|i: int| 0 <= i < encode_utf8("general.message"@).len() ==> encode_utf8("general.message"@)[i] != 0u8);
    assert("general.vcard"@.len() == 13);
    assert(vstd::utf8::is_ascii_chars("general.vcard"@));
    vstd::utf8::is_ascii_chars_encode_utf8("general.vcard"@);
    assert(forall|i: int| 0 <= i < encode_utf8("general.vcard"@).len() ==> encode_utf8("general.vcard"@)[i] != 0u8);
    assert("general.navigation"@.len() == 18);
    assert(vstd::utf8::is_ascii_chars("general.navigation"@));
    vstd::utf8::is_ascii_chars_encode_utf8("general.navigation"@);
    assert(forall|i: int| 0 <= i < encode_utf8("general.navigation"@).len() ==> encode_utf8("general.navigation"@)[i] != 0u8);
    assert("general.location"@.len() == 16);
    assert(vstd::utf8::is_ascii_chars("general.location"@));
    vstd::utf8::is_ascii_chars_encode_utf8("general.location"@);
    assert(forall|i: int| 0 <= i < encode_utf8("general.location"@).len() ==> encode_utf8("general.location"@)[i] != 0u8);
    assert("openharmony.form"@.len() == 16);
    assert(vstd::utf8::is_ascii_chars("openharmony.form"@));
    vstd::utf8::is_ascii_chars_encode_utf8("openharmony.form"@);
    assert(forall|i: int| 0 <= i < encode_utf8("openharmony.form"@).len() ==> encode_utf8("openharmony.form"@)[i] != 0u8);
    assert("openharmony.app-item"@.len() == 20);
    assert(vstd::utf8::is_ascii_chars("openharmony.app-item"@));
    vstd::utf8::is_ascii_chars_encode_utf8("openharmony.app-item"@);
    assert(forall|i: int| 0 <= i < encode_utf8("openharmony.app-item"@).len() ==> encode_utf8("openharmony.app-item"@)[i] != 0u8);
    assert("openharmony.pixel-map"@.len() == 21);
    assert(vstd::utf8::is_ascii_chars("openharmony.pixel-map"@));
    vstd::utf8::is_ascii_chars_encode_utf8("openharmony.pixel-map"@);
    assert(forall|i: int| 0 <= i < encode_utf8("openharmony.pixel-map"@).len() ==> encode_utf8("openharmony.pixel-map"@)[i] != 0u8);
    assert("openharmony.atomic-service"@.len() == 26);
    assert(vstd::utf8::is_ascii_chars("openharmony.atomic-service"@));
    vstd::utf8::is_ascii_chars_encode_utf8("openharmony.atomic-service"@);
    assert(forall|i: int| 0 <= i < encode_utf8("openharmony.atomic-service"@).len() ==> encode_utf8("openharmony.atomic-service"@)[i] != 0u8);
    assert("openharmony.package"@.len() == 19);
    assert(vstd::utf8::is_ascii_chars("openharmony.package"@));
    vstd::utf8::is_ascii_chars_encode_utf8("openharmony.package"@);
    assert(forall|i: int| 0 <= i < encode_utf8("openharmony.package"@).len() ==> encode_utf8("openharmony.package"@)[i] != 0u8);
    assert("openharmony.hap"@.len() == 15);
    assert(vstd::utf8::is_ascii_chars("openharmony.hap"@));
    vstd::utf8::is_ascii_chars_encode_utf8("openharmony.hap"@);
    assert(forall|i: int| 0 <= i < encode_utf8("openharmony.hap"@).len() ==> encode_utf8("openharmony.hap"@)[i] != 0u8);
    assert("com.real.smil"@.len() == 13);
    assert(vstd::utf8::is_ascii_chars("com.real.smil"@));
    vstd::utf8::is_ascii_chars_encode_utf8("com.real.smil"@);
    assert(forall|i: int| 0 <= i < encode_utf8("com.real.smil"@).len() ==> encode_utf8("com.real.smil"@)[i] != 0u8);
    assert("general.markdown"@.len() == 16);
    assert(vstd::utf8::is_ascii_chars("general.markdown"@));
    vstd::utf8::is_ascii_chars_encode_utf8("general.markdown"@);
    assert(forall|i: int| 0 <= i < encode_utf8("general.markdown"@).len() ==> encode_utf8("general.markdown"@)[i] != 0u8);
    assert("general.fax"@.len() == 11);
    assert(vstd::utf8::is_ascii_chars("general.fax"@));
    vstd::utf8::is_ascii_chars_encode_utf8("general.fax"@);
    assert(forall|i: int| 0 <= i < encode_utf8("general.fax"@).len() ==> encode_utf8("general.fax"@)[i] != 0u8);
    assert("com.j2.jfx-fax"@.len() == 14);
    assert(vstd::utf8::is_ascii_chars("com.j2.jfx-fax"@));
    vstd::utf8::is_ascii_chars_encode_utf8("com.j2.jfx-fax"@);
    assert(forall|i: int| 0 <= i < encode_utf8("com.j2.jfx-fax"@).len() ==> encode_utf8("com.j2.jfx-fax"@)[i] != 0u8);
    assert("com.js.efx-fax"@.len() == 14);
    assert(vstd::utf8::is_ascii_chars("com.js.efx-fax"@));
    vstd::utf8::is_ascii_chars_encode_utf8("com.js.efx-fax"@);
    assert(forall|i: int| 0 <= i < encode_utf8("com.js.efx-fax"@).len() ==> encode_utf8("com.js.efx-fax"@)[i] != 0u8);
    assert("general.xbitmap-image"@.len() == 21);
    assert(vstd::utf8::is_ascii_chars("general.xbitmap-image"@));
    vstd::utf8::is_ascii_chars_encode_utf8("general.xbitmap-image"@);
    assert(forall|i: int| 0 <= i < encode_utf8("general.xbitmap-image"@).len() ==> encode_utf8("general.xbitmap-image"@)[i] != 0u8);
    assert("com.truevision.tga-image"@.len() == 24);
    assert(vstd::utf8::is_ascii_chars("com.truevision.tga-image"@));
    vstd::utf8::is_ascii_chars_encode_utf8("com.truevision.tga-image"@);
    assert(forall|i: int| 0 <= i < encode_utf8("com.truevision.tga-image"@).len() ==> encode_utf8("com.truevision.tga-image"@)[i] != 0u8);
}

#[verifier::rlimit(100)]
proof fn nul_free_chunk_4()
    ensures
        !has_nul(encode_utf8((UniformDataType::SgiImage).wire_spec())),
        !has_nul(encode_utf8((UniformDataType::OpenexrImage).wire_spec())),
        !has_nul(encode_utf8((UniformDataType::FlashpixImage).wire_spec())),
        !has_nul(encode_utf8((UniformDataType::Realmedia).wire_spec())),
        !has_nul(encode_utf8((UniformDataType::AuAudio).wire_spec())),
        !has_nul(encode_utf8((UniformDataType::AifcAudio).wire_spec())),
        !has_nul(encode_utf8((UniformDataType::Sd2Audio).wire_spec())),
        !has_nul(encode_utf8((UniformDataType::Realaudio).wire_spec())),
        !has_nul(encode_utf8((UniformDataType::Openxml).wire_spec())),
        !has_nul(encode_utf8((UniformDataType::WordprocessingmlDocument).wire_spec())),
        !has_nul(encode_utf8((UniformDataType::SpreadsheetmlSheet).wire_spec())),
        !has_nul(encode_utf8((UniformDataType::PresentationmlPresentation).wire_spec())),
        !has_nul(encode_utf8((UniformDataType::Opendocument).wire_spec())),
        !has_nul(encode_utf8((UniformDataType::OpendocumentText).wire_spec())),
        !has_nul(encode_utf8((UniformDataType::OpendocumentSpreadsheet).wire_spec())),
        !has_nul(encode_utf8((UniformDataType::OpendocumentPresentation).wire_spec())),
        !has_nul(encode_utf8((UniformDataType::OpendocumentGraphics).wire_spec())),
        !has_nul(encode_utf8((UniformDataType::OpendocumentFormula).wire_spec())),
        !has_nul(encode_utf8((UniformDataType::StuffitArchive).wire_spec())),
        !has_nul(encode_utf8((UniformDataType::Vcs).wire_spec())),
        !has_nul(encode_utf8((UniformDataType::Ics).wire_spec())),
        !has_nul(encode_utf8((UniformDataType::Executable).wire_spec())),
        !has_nul(encode_utf8((UniformDataType::PortableExecutable).wire_spec())),
        !has_nul(encode_utf8((UniformDataType::SunJavaClass).wire_spec())),
        !has_nul(encode_utf8((UniformDataType::Font).wire_spec())),
{
    reveal_strlit("com.sgi.sgi-image");
    reveal_strlit("com.ilm.openexr-image");
    reveal_strlit("com.kodak.flashpix.image");
    reveal_strlit("com.real.realmedia");
    reveal_strlit("general.au-audio");
    reveal_strlit("general.aifc-audio");
    reveal_strlit("com.digidesign.sd2-audio");
    reveal_strlit("com.real.realaudio");
    reveal_strlit("org.openxmlformats.openxml");
    reveal_strlit("org.openxmlformats.wordprocessingml.document");
    reveal_strlit("org.openxmlformats.spreadsheetml.sheet");
    reveal_strlit("org.openxmlformats.presentationml.presentation");
    reveal_strlit("org.oasis.opendocument");
    reveal_strlit("org.oasis.opendocument.text");
    reveal_strlit("org.oasis.opendocument.spreadsheet");
    reveal_strlit("org.oasis.opendocument.presentation");
    reveal_strlit("org.oasis.opendocument.graphics");
    reveal_strlit("org.oasis.opendocument.formula");
    reveal_strlit("com.allume.stuffit-archive");
    reveal_strlit("general.vcs");
    reveal_strlit("general.ics");
    reveal_strlit("general.executable");
    reveal_strlit("com.microsoft.portable-executable");
    reveal_strlit("com.sun.java-class");
    reveal_strlit("general.font");
    assert("com.sgi.sgi-image"@.len() == 17);
    assert(vstd::utf8::is_ascii_chars("com.sgi.sgi-image"@));
    vstd::utf8::is_ascii_chars_encode_utf8("com.sgi.sgi-image"@);
    assert(forall|i: int| 0 <= i < encode_utf8("com.sgi.sgi-image"@).len() ==> encode_utf8("com.sgi.sgi-image"@)[i] != 0u8);
    assert("com.ilm.openexr-image"@.len() == 21);
    assert(vstd::utf8::is_ascii_chars("com.ilm.openexr-image"@));
    vstd::utf8::is_ascii_chars_encode_utf8("com.ilm.openexr-image"@);
    assert(forall|i: int| 0 <= i < encode_utf8("com.ilm.openexr-image"@).len() ==> encode_utf8("com.ilm.openexr-image"@)[i] != 0u8);
    assert("com.kodak.flashpix.image"@.len() == 24);
    assert(vstd::utf8::is_ascii_chars("com.kodak.flashpix.image"@));
    vstd::utf8::is_ascii_chars_encode_utf8("com.kodak.flashpix.image"@);
    assert(forall|i: int| 0 <= i < encode_utf8("com.kodak.flashpix.image"@).len() ==> encode_utf8("com.kodak.flashpix.image"@)[i] != 0u8);
    assert("com.real.realmedia"@.len() == 18);
    assert(vstd::utf8::is_ascii_chars("com.real.realmedia"@));
    vstd::utf8::is_ascii_chars_encode_utf8("com.real.realmedia"@);
    assert(forall|i: int| 0 <= i < encode_utf8("com.real.realmedia"@).len() ==> encode_utf8("com.real.realmedia"@)[i] != 0u8);
    assert("general.au-audio"@.len() == 16);
    assert(vstd::utf8::is_ascii_chars("general.au-audio"@));
    vstd::utf8::is_ascii_chars_encode_utf8("general.au-audio"@);
    assert(forall|i: int| 0 <= i < encode_utf8("general.au-audio"@).len() ==> encode_utf8("general.au-audio"@)[i] != 0u8);
    assert("general.aifc-audio"@.len() == 18);
    assert(vstd::utf8::is_ascii_chars("general.aifc-audio"@));
    vstd::utf8::is_ascii_chars_encode_utf8("general.aifc-audio"@);
    assert(forall|i: int| 0 <= i < encode_utf8("general.aifc-audio"@).len() ==> encode_utf8("general.aifc-audio"@)[i] != 0u8);
    assert("com.digidesign.sd2-audio"@.len() == 24);
    assert(vstd::utf8::is_ascii_chars("com.digidesign.sd2-audio"@));
    vstd::utf8::is_ascii_chars_encode_utf8("com.digidesign.sd2-audio"@);
    assert(forall|i: int| 0 <= i < encode_utf8("com.digidesign.sd2-audio"@).len() ==> encode_utf8("com.digidesign.sd2-audio"@)[i] != 0u8);
    assert("com.real.realaudio"@.len() == 18);
    assert(vstd::utf8::is_ascii_chars("com.real.realaudio"@));
    vstd::utf8::is_ascii_chars_encode_utf8("com.real.realaudio"@);
    assert(forall|i: int| 0 <= i < encode_utf8("com.real.realaudio"@).len() ==> encode_utf8("com.real.realaudio"@)[i] != 0u8);
    assert("org.openxmlformats.openxml"@.len() == 26);
    assert(vstd::utf8::is_ascii_chars("org.openxmlformats.openxml"@));
    vstd::utf8::is_ascii_chars_encode_utf8("org.openxmlformats.openxml"@);
    assert(forall|i: int| 0 <= i < encode_utf8("org.openxmlformats.openxml"@).len() ==> encode_utf8("org.openxmlformats.openxml"@)[i] != 0u8);
    assert("org.openxmlformats.wordprocessingml.document"@.len() == 44);
    assert(vstd::utf8::is_ascii_chars("org.openxmlformats.wordprocessingml.document"@));
    vstd::utf8::is_ascii_chars_encode_utf8("org.openxmlformats.wordprocessingml.document"@);
    assert(forall|i: int| 0 <= i < encode_utf8("org.openxmlformats.wordprocessingml.document"@).len() ==> encode_utf8("org.openxmlformats.wordprocessingml.document"@)[i] != 0u8);
    assert("org.openxmlformats.spreadsheetml.sheet"@.len() == 38);
    assert(vstd::utf8::is_ascii_chars("org.openxmlformats.spreadsheetml.sheet"@));
    vstd::utf8::is_ascii_chars_encode_utf8("org.openxmlformats.spreadsheetml.sheet"@);
    assert(forall|i: int| 0 <= i < encode_utf8("org.openxmlformats.spreadsheetml.sheet"@).len() ==> encode_utf8("org.openxmlformats.spreadsheetml.sheet"@)[i] != 0u8);
    assert("org.openxmlformats.presentationml.presentation"@.len() == 46);
    assert(vstd::utf8::is_ascii_chars("org.openxmlformats.presentationml.presentation"@));
    vstd::utf8::is_ascii_chars_encode_utf8("org.openxmlformats.presentationml.presentation"@);
    assert(forall|i: int| 0 <= i < encode_utf8("org.openxmlformats.presentationml.presentation"@).len() ==> encode_utf8("org.openxmlformats.presentationml.presentation"@)[i] != 0u8);
    assert("org.oasis.opendocument"@.len() == 22);
    assert(vstd::utf8::is_ascii_chars("org.oasis.opendocument"@));
    vstd::utf8::is_ascii_chars_encode_utf8("org.oasis.opendocument"@);
    assert(forall|i: int| 0 <= i < encode_utf8("org.oasis.opendocument"@).len() ==> encode_utf8("org.oasis.opendocument"@)[i] != 0u8);
    assert("org.oasis.opendocument.text"@.len() == 27);
    assert(vstd::utf8::is_ascii_chars("org.oasis.opendocument.text"@));
    vstd::utf8::is_ascii_chars_encode_utf8("org.oasis.opendocument.text"@);
    assert(forall|i: int| 0 <= i < encode_utf8("org.oasis.opendocument.text"@).len() ==> encode_utf8("org.oasis.opendocument.text"@)[i] != 0u8);
    assert("org.oasis.opendocument.spreadsheet"@.len() == 34);
    assert(vstd::utf8::is_ascii_chars("org.oasis.opendocument.spreadsheet"@));
    vstd::utf8::is_ascii_chars_encode_utf8("org.oasis.opendocument.spreadsheet"@);
    assert(forall|i: int| 0 <= i < encode_utf8("org.oasis.opendocument.spreadsheet"@).len() ==> encode_utf8("org.oasis.opendocument.spreadsheet"@)[i] != 0u8);
    assert("org.oasis.opendocument.presentation"@.len() == 35);
    assert(vstd::utf8::is_ascii_chars("org.oasis.opendocument.presentation"@));
    vstd::utf8::is_ascii_chars_encode_utf8("org.oasis.opendocument.presentation"@);
    assert(forall|i: int| 0 <= i < encode_utf8("org.oasis.opendocument.presentation"@).len() ==> encode_utf8("org.oasis.opendocument.presentation"@)[i] != 0u8);
    assert("org.oasis.opendocument.graphics"@.len() == 31);
    assert(vstd::utf8::is_ascii_chars("org.oasis.opendocument.graphics"@));
    vstd::utf8::is_ascii_chars_encode_utf8("org.oasis.opendocument.graphics"@);
    assert(forall|i: int| 0 <= i < encode_utf8("org.oasis.opendocument.graphics"@).len() ==> encode_utf8("org.oasis.opendocument.graphics"@)[i] != 0u8);
    assert("org.oasis.opendocument.formula"@.len() == 30);
    assert(vstd::utf8::is_ascii_chars("org.oasis.opendocument.formula"@));
    vstd::utf8::is_ascii_chars_encode_utf8("org.oasis.opendocument.formula"@);
    assert(forall|i: int| 0 <= i < encode_utf8("org.oasis.opendocument.formula"@).len() ==> encode_utf8("org.oasis.opendocument.formula"@)[i] != 0u8);
    assert("com.allume.stuffit-archive"@.len() == 26);
    assert(vstd::utf8::is_ascii_chars("com.allume.stuffit-archive"@));
    vstd::utf8::is_ascii_chars_encode_utf8("com.allume.stuffit-archive"@);
    assert(forall|i: int| 0 <= i < encode_utf8("com.allume.stuffit-archive"@).len() ==> encode_utf8("com.allume.stuffit-archive"@)[i] != 0u8);
    assert("general.vcs"@.len() == 11);
    assert(vstd::utf8::is_ascii_chars("general.vcs"@));
    vstd::utf8::is_ascii_chars_encode_utf8("general.vcs"@);
    assert(forall|i: int| 0 <= i < encode_utf8("general.vcs"@).len() ==> encode_utf8("general.vcs"@)[i] != 0u8);
    assert("general.ics"@.len() == 11);
    assert(vstd::utf8::is_ascii_chars("general.ics"@));
    vstd::utf8::is_ascii_chars_encode_utf8("general.ics"@);
    assert(forall|i: int| 0 <= i < encode_utf8("general.ics"@).len() ==> encode_utf8("general.ics"@)[i] != 0u8);
    assert("general.executable"@.len() == 18);
    assert(vstd::utf8::is_ascii_chars("general.executable"@));
    vstd::utf8::is_ascii_chars_encode_utf8("general.executable"@);
    assert(forall|i: int| 0 <= i < encode_utf8("general.executable"@).len() ==> encode_utf8("general.executable"@)[i] != 0u8);
    assert("com.microsoft.portable-executable"@.len() == 33);
    assert(vstd::utf8::is_ascii_chars("com.microsoft.portable-executable"@));
    vstd::utf8::is_ascii_chars_encode_utf8("com.microsoft.portable-executable"@);
    assert(forall|i: int| 0 <= i < encode_utf8("com.microsoft.portable-executable"@).len() ==> encode_utf8("com.microsoft.portable-executable"@)[i] != 0u8);
    assert("com.sun.java-class"@.len() == 18);
    assert(vstd::utf8::is_ascii_chars("com.sun.java-class"@));
    vstd::utf8::is_ascii_chars_encode_utf8("com.sun.java-class"@);
    assert(forall|i: int| 0 <= i < encode_utf8("com.sun.java-class"@).len() ==> encode_utf8("com.sun.java-class"@)[i] != 0u8);
    assert("general.font"@.len() == 12);
    assert(vstd::utf8::is_ascii_chars("general.font"@));
    vstd::utf8::is_ascii_chars_encode_utf8("general.font"@);
    assert(forall|i: int| 0 <= i < encode_utf8("general.font"@).len() ==> encode_utf8("general.font"@)[i] != 0u8);
}

#[verifier::rlimit(100)]
proof fn nul_free_chunk_5()
    ensures
        !has_nul(encode_utf8((UniformDataType::TruetypeFont).wire_spec())),
        !has_nul(encode_utf8((UniformDataType::TruetypeCollectionFont).wire_spec())),
        !has_nul(encode_utf8((UniformDataType::OpentypeFont).wire_spec())),
        !has_nul(encode_utf8((UniformDataType::PostscriptFont).wire_spec())),
        !has_nul(encode_utf8((UniformDataType::PostscriptPfbFont).wire_spec())),
        !has_nul(encode_utf8((UniformDataType::PostscriptPfaFont).wire_spec())),
        !has_nul(encode_utf8((UniformDataType::OpenHarmonyHdoc).wire_spec())),
        !has_nul(encode_utf8((UniformDataType::OpenHarmonyHinote).wire_spec())),
        !has_nul(encode_utf8((UniformDataType::OpenHarmonyStyledString).wire_spec())),
        !has_nul(encode_utf8((UniformDataType::OpenHarmonyWant).wire_spec())),
        !has_nul(encode_utf8((UniformDataType::GeneralFileUri).wire_spec())),
        !has_nul(encode_utf8((UniformDataType::GeneralContentForm).wire_spec())),
{
    reveal_strlit("general.truetype-font");
    reveal_strlit("general.truetype-collection-font");
    reveal_strlit("general.opentype-font");
    reveal_strlit("com.adobe.postscript-font");
    reveal_strlit("com.adobe.postscript-pfb-font");
    reveal_strlit("com.adobe.postscript-pfa-font");
    reveal_strlit("openharmony.hdoc");
    reveal_strlit("openharmony.hinote");
    reveal_strlit("openharmony.styled-string");
    reveal_strlit("openharmony.want");
    reveal_strlit("general.file-uri");
    reveal_strlit("general.content-form");
    assert("general.truetype-font"@.len() == 21);
    assert(vstd::utf8::is_ascii_chars("general.truetype-font"@));
    vstd::utf8::is_ascii_chars_encode_utf8("general.truetype-font"@);
    assert(forall|i: int| 0 <= i < encode_utf8("general.truetype-font"@).len() ==> encode_utf8("general.truetype-font"@)[i] != 0u8);
    assert("general.truetype-collection-font"@.len() == 32);
    assert(vstd::utf8::is_ascii_chars("general.truetype-collection-font"@));
    vstd::utf8::is_ascii_chars_encode_utf8("general.truetype-collection-font"@);
    assert(forall|i: int| 0 <= i < encode_utf8("general.truetype-collection-font"@).len() ==> encode_utf8("general.truetype-collection-font"@)[i] != 0u8);
    assert("general.opentype-font"@.len() == 21);
    assert(vstd::utf8::is_ascii_chars("general.opentype-font"@));
    vstd::utf8::is_ascii_chars_encode_utf8("general.opentype-font"@);
    assert(forall|i: int| 0 <= i < encode_utf8("general.opentype-font"@).len() ==> encode_utf8("general.opentype-font"@)[i] != 0u8);
    assert("com.adobe.postscript-font"@.len() == 25);
    assert(vstd::utf8::is_ascii_chars("com.adobe.postscript-font"@));
    vstd::utf8::is_ascii_chars_encode_utf8("com.adobe.postscript-font"@);
    assert(forall|i: int| 0 <= i < encode_utf8("com.adobe.postscript-font"@).len() ==> encode_utf8("com.adobe.postscript-font"@)[i] != 0u8);
    assert("com.adobe.postscript-pfb-font"@.len() == 29);
    assert(vstd::utf8::is_ascii_chars("com.adobe.postscript-pfb-font"@));
    vstd::utf8::is_ascii_chars_encode_utf8("com.adobe.postscript-pfb-font"@);
    assert(forall|i: int| 0 <= i < encode_utf8("com.adobe.postscript-pfb-font"@).len() ==> encode_utf8("com.adobe.postscript-pfb-font"@)[i] != 0u8);
    assert("com.adobe.postscript-pfa-font"@.len() == 29);
    assert(vstd::utf8::is_ascii_chars("com.adobe.postscript-pfa-font"@));
    vstd::utf8::is_ascii_chars_encode_utf8("com.adobe.postscript-pfa-font"@);
    assert(forall|i: int| 0 <= i < encode_utf8("com.adobe.postscript-pfa-font"@).len() ==> encode_utf8("com.adobe.postscript-pfa-font"@)[i] != 0u8);
    assert("openharmony.hdoc"@.len() == 16);
    assert(vstd::utf8::is_ascii_chars("openharmony.hdoc"@));
    vstd::utf8::is_ascii_chars_encode_utf8("openharmony.hdoc"@);
    assert(forall|i: int| 0 <= i < encode_utf8("openharmony.hdoc"@).len() ==> encode_utf8("openharmony.hdoc"@)[i] != 0u8);
    assert("openharmony.hinote"@.len() == 18);
    assert(vstd::utf8::is_ascii_chars("openharmony.hinote"@));
    vstd::utf8::is_ascii_chars_encode_utf8("openharmony.hinote"@);
    assert(forall|i: int| 0 <= i < encode_utf8("openharmony.hinote"@).len() ==> encode_utf8("openharmony.hinote"@)[i] != 0u8);
    assert("openharmony.styled-string"@.len() == 25);
    assert(vstd::utf8::is_ascii_chars("openharmony.styled-string"@));
    vstd::utf8::is_ascii_chars_encode_utf8("openharmony.styled-string"@);
    assert(forall|i: int| 0 <= i < encode_utf8("openharmony.styled-string"@).len() ==> encode_utf8("openharmony.styled-string"@)[i] != 0u8);
    assert("openharmony.want"@.len() == 16);
    assert(vstd::utf8::is_ascii_chars("openharmony.want"@));
    vstd::utf8::is_ascii_chars_encode_utf8("openharmony.want"@);
    assert(forall|i: int| 0 <= i < encode_utf8("openharmony.want"@).len() ==> encode_utf8("openharmony.want"@)[i] != 0u8);
    assert("general.file-uri"@.len() == 16);
    assert(vstd::utf8::is_ascii_chars("general.file-uri"@));
    vstd::utf8::is_ascii_chars_encode_utf8("general.file-uri"@);
    assert(forall|i: int| 0 <= i < encode_utf8("general.file-uri"@).len() ==> encode_utf8("general.file-uri"@)[i] != 0u8);
    assert("general.content-form"@.len() == 20);
    assert(vstd::utf8::is_ascii_chars("general.content-form"@));
    vstd::utf8::is_ascii_chars_encode_utf8("general.content-form"@);
    assert(forall|i: int| 0 <= i < encode_utf8("general.content-form"@).len() ==> encode_utf8("general.content-form"@)[i] != 0u8);
}

/// Every well-known tag's wire string is free of embedded null bytes,
/// so marshalling it across the boundary (`to_cstr`) always succeeds;
/// only an `Other` tag can be rejected.
pub proof fn lemma_well_known_marshals(t: UniformDataType)
    requires
        t.is_well_known(),
    ensures
        !has_nul(encode_utf8(t.wire_spec())),
{
    match t {
        UniformDataType::Entity => nul_free_chunk_0(),
        UniformDataType::Object => nul_free_chunk_0(),
        UniformDataType::CompositeObject => nul_free_chunk_0(),
        UniformDataType::Text => nul_free_chunk_0(),
        UniformDataType::PlainText => nul_free_chunk_0(),
        UniformDataType::Html => nul_free_chunk_0(),
        UniformDataType::Hyperlink => nul_free_chunk_0(),
        UniformDataType::Xml => nul_free_chunk_0(),
        UniformDataType::SourceCode => nul_free_chunk_0(),
        UniformDataType::Script => nul_free_chunk_0(),
        UniformDataType::ShellScript => nul_free_chunk_0(),
        UniformDataType::CshScript => nul_free_chunk_0(),
        UniformDataType::PerlScript => nul_free_chunk_0(),
        UniformDataType::PhpScript => nul_free_chunk_0(),
        UniformDataType::PythonScript => nul_free_chunk_0(),
        UniformDataType::RubyScript => nul_free_chunk_0(),
        UniformDataType::TypeScript => nul_free_chunk_0(),
        UniformDataType::JavaScript => nul_free_chunk_0(),
        UniformDataType::CHeader => nul_free_chunk_0(),
        UniformDataType::CSource => nul_free_chunk_0(),
        UniformDataType::CPlusPlusHeader => nul_free_chunk_0(),
        UniformDataType::CPlusPlusSource => nul_free_chunk_0(),
        UniformDataType::JavaSource => nul_free_chunk_0(),
        UniformDataType::Ebook => nul_free_chunk_0(),
        UniformDataType::Epub => nul_free_chunk_0(),
        UniformDataType::Azw => nul_free_chunk_1(),
        UniformDataType::Azw3 => nul_free_chunk_1(),
        UniformDataType::Kfx => nul_free_chunk_1(),
        UniformDataType::Mobi => nul_free_chunk_1(),
        UniformDataType::Media => nul_free_chunk_1(),
        UniformDataType::Image => nul_free_chunk_1(),
        UniformDataType::Jpeg => nul_free_chunk_1(),
        UniformDataType::Png => nul_free_chunk_1(),
        UniformDataType::RawImage => nul_free_chunk_1(),
        UniformDataType::Tiff => nul_free_chunk_1(),
        UniformDataType::Bmp => nul_free_chunk_1(),
        UniformDataType::Ico => nul_free_chunk_1(),
        UniformDataType::PhotoshopImage => nul_free_chunk_1(),
        UniformDataType::AiImage => nul_free_chunk_1(),
        UniformDataType::WordDoc => nul_free_chunk_1(),
        UniformDataType::Excel => nul_free_chunk_1(),
        UniformDataType::Ppt => nul_free_chunk_1(),
        UniformDataType::Pdf => nul_free_chunk_1(),
        UniformDataType::Postscript => nul_free_chunk_1(),
        UniformDataType::EncapsulatedPostscript => nul_free_chunk_1(),
        UniformDataType::Video => nul_free_chunk_1(),
        UniformDataType::Avi => nul_free_chunk_1(),
        UniformDataType::Mpeg => nul_free_chunk_1(),
        UniformDataType::Mpeg4 => nul_free_chunk_1(),
        UniformDataType::Video3gpp => nul_free_chunk_1(),
        UniformDataType::Video3gpp2 => nul_free_chunk_2(),
        UniformDataType::WindowsMediaWm => nul_free_chunk_2(),
        UniformDataType::WindowsMediaWmv => nul_free_chunk_2(),
        UniformDataType::WindowsMediaWmp => nul_free_chunk_2(),
        UniformDataType::Audio => nul_free_chunk_2(),
        UniformDataType::Aac => nul_free_chunk_2(),
        UniformDataType::Aiff => nul_free_chunk_2(),
        UniformDataType::Alac => nul_free_chunk_2(),
        UniformDataType::Flac => nul_free_chunk_2(),
        UniformDataType::Mp3 => nul_free_chunk_2(),
        UniformDataType::Ogg => nul_free_chunk_2(),
        UniformDataType::Pcm => nul_free_chunk_2(),
        UniformDataType::WindowsMediaWma => nul_free_chunk_2(),
        UniformDataType::WaveformAudio => nul_free_chunk_2(),
        UniformDataType::WindowsMediaWmx => nul_free_chunk_2(),
        UniformDataType::WindowsMediaWvx => nul_free_chunk_2(),
        UniformDataType::WindowsMediaWax => nul_free_chunk_2(),
        UniformDataType::GeneralFile => nul_free_chunk_2(),
        UniformDataType::Directory => nul_free_chunk_2(),
        UniformDataType::Folder => nul_free_chunk_2(),
        UniformDataType::Symlink => nul_free_chunk_2(),
        UniformDataType::Archive => nul_free_chunk_2(),
        UniformDataType::Bz2Archive => nul_free_chunk_2(),
        UniformDataType::DiskImage => nul_free_chunk_2(),
        UniformDataType::TarArchive => nul_free_chunk_2(),
        UniformDataType::ZipArchive => nul_free_chunk_3(),
        UniformDataType::JavaArchive => nul_free_chunk_3(),
        UniformDataType::GnuTarArchive => nul_free_chunk_3(),
        UniformDataType::GnuZipArchive => nul_free_chunk_3(),
        UniformDataType::GnuZipTarArchive => nul_free_chunk_3(),
        UniformDataType::Calendar => nul_free_chunk_3(),
        UniformDataType::Contact => nul_free_chunk_3(),
        UniformDataType::Database => nul_free_chunk_3(),
        UniformDataType::Message => nul_free_chunk_3(),
        UniformDataType::Vcard => nul_free_chunk_3(),
        UniformDataType::Navigation => nul_free_chunk_3(),
        UniformDataType::Location => nul_free_chunk_3(),
        UniformDataType::OpenHarmonyForm => nul_free_chunk_3(),
        UniformDataType::OpenHarmonyAppItem => nul_free_chunk_3(),
        UniformDataType::OpenHarmonyPixelMap => nul_free_chunk_3(),
        UniformDataType::OpenHarmonyAtomicService => nul_free_chunk_3(),
        UniformDataType::OpenHarmonyPackage => nul_free_chunk_3(),
        UniformDataType::OpenHarmonyHap => nul_free_chunk_3(),
        UniformDataType::Smil => nul_free_chunk_3(),
        UniformDataType::Markdown => nul_free_chunk_3(),
        UniformDataType::Fax => nul_free_chunk_3(),
        UniformDataType::JfxFax => nul_free_chunk_3(),
        UniformDataType::EfxFax => nul_free_chunk_3(),
        UniformDataType::XbitmapImage => nul_free_chunk_3(),
        UniformDataType::TgaImage => nul_free_chunk_3(),
        UniformDataType::SgiImage => nul_free_chunk_4(),
        UniformDataType::OpenexrImage => nul_free_chunk_4(),
        UniformDataType::FlashpixImage => nul_free_chunk_4(),
        UniformDataType::Realmedia => nul_free_chunk_4(),
        UniformDataType::AuAudio => nul_free_chunk_4(),
        UniformDataType::AifcAudio => nul_free_chunk_4(),
        UniformDataType::Sd2Audio => nul_free_chunk_4(),
        UniformDataType::Realaudio => nul_free_chunk_4(),
        UniformDataType::Openxml => nul_free_chunk_4(),
        UniformDataType::WordprocessingmlDocument => nul_free_chunk_4(),
        UniformDataType::SpreadsheetmlSheet => nul_free_chunk_4(),
        UniformDataType::PresentationmlPresentation => nul_free_chunk_4(),
        UniformDataType::Opendocument => nul_free_chunk_4(),
        UniformDataType::OpendocumentText => nul_free_chunk_4(),
        UniformDataType::OpendocumentSpreadsheet => nul_free_chunk_4(),
        UniformDataType::OpendocumentPresentation => nul_free_chunk_4(),
        UniformDataType::OpendocumentGraphics => nul_free_chunk_4(),
        UniformDataType::OpendocumentFormula => nul_free_chunk_4(),
        UniformDataType::StuffitArchive => nul_free_chunk_4(),
        UniformDataType::Vcs => nul_free_chunk_4(),
        UniformDataType::Ics => nul_free_chunk_4(),
        UniformDataType::Executable => nul_free_chunk_4(),
        UniformDataType::PortableExecutable => nul_free_chunk_4(),
        UniformDataType::SunJavaClass => nul_free_chunk_4(),
        UniformDataType::Font => nul_free_chunk_4(),
        UniformDataType::TruetypeFont => nul_free_chunk_5(),
        UniformDataType::TruetypeCollectionFont => nul_free_chunk_5(),
        UniformDataType::OpentypeFont => nul_free_chunk_5(),
        UniformDataType::PostscriptFont => nul_free_chunk_5(),
        UniformDataType::PostscriptPfbFont => nul_free_chunk_5(),
        UniformDataType::PostscriptPfaFont => nul_free_chunk_5(),
        UniformDataType::OpenHarmonyHdoc => nul_free_chunk_5(),
        UniformDataType::OpenHarmonyHinote => nul_free_chunk_5(),
        UniformDataType::OpenHarmonyStyledString => nul_free_chunk_5(),
        UniformDataType::OpenHarmonyWant => nul_free_chunk_5(),
        UniformDataType::GeneralFileUri => nul_free_chunk_5(),
        UniformDataType::GeneralContentForm => nul_free_chunk_5(),
        UniformDataType::Other(_) => (),
    }
}

} // verus!
