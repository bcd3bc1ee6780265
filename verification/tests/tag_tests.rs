use udmf::UniformDataType;

fn all_well_known() -> Vec<UniformDataType> {
    vec![
        UniformDataType::Entity,
        UniformDataType::Object,
        UniformDataType::CompositeObject,
        UniformDataType::Text,
        UniformDataType::PlainText,
        UniformDataType::Html,
        UniformDataType::Hyperlink,
        UniformDataType::Xml,
        UniformDataType::SourceCode,
        UniformDataType::Script,
        UniformDataType::ShellScript,
        UniformDataType::CshScript,
        UniformDataType::PerlScript,
        UniformDataType::PhpScript,
        UniformDataType::PythonScript,
        UniformDataType::RubyScript,
        UniformDataType::TypeScript,
        UniformDataType::JavaScript,
        UniformDataType::CHeader,
        UniformDataType::CSource,
        UniformDataType::CPlusPlusHeader,
        UniformDataType::CPlusPlusSource,
        UniformDataType::JavaSource,
        UniformDataType::Ebook,
        UniformDataType::Epub,
        UniformDataType::Azw,
        UniformDataType::Azw3,
        UniformDataType::Kfx,
        UniformDataType::Mobi,
        UniformDataType::Media,
        UniformDataType::Image,
        UniformDataType::Jpeg,
        UniformDataType::Png,
        UniformDataType::RawImage,
        UniformDataType::Tiff,
        UniformDataType::Bmp,
        UniformDataType::Ico,
        UniformDataType::PhotoshopImage,
        UniformDataType::AiImage,
        UniformDataType::WordDoc,
        UniformDataType::Excel,
        UniformDataType::Ppt,
        UniformDataType::Pdf,
        UniformDataType::Postscript,
        UniformDataType::EncapsulatedPostscript,
        UniformDataType::Video,
        UniformDataType::Avi,
        UniformDataType::Mpeg,
        UniformDataType::Mpeg4,
        UniformDataType::Video3gpp,
        UniformDataType::Video3gpp2,
        UniformDataType::WindowsMediaWm,
        UniformDataType::WindowsMediaWmv,
        UniformDataType::WindowsMediaWmp,
        UniformDataType::Audio,
        UniformDataType::Aac,
        UniformDataType::Aiff,
        UniformDataType::Alac,
        UniformDataType::Flac,
        UniformDataType::Mp3,
        UniformDataType::Ogg,
        UniformDataType::Pcm,
        UniformDataType::WindowsMediaWma,
        UniformDataType::WaveformAudio,
        UniformDataType::WindowsMediaWmx,
        UniformDataType::WindowsMediaWvx,
        UniformDataType::WindowsMediaWax,
        UniformDataType::GeneralFile,
        UniformDataType::Directory,
        UniformDataType::Folder,
        UniformDataType::Symlink,
        UniformDataType::Archive,
        UniformDataType::Bz2Archive,
        UniformDataType::DiskImage,
        UniformDataType::TarArchive,
        UniformDataType::ZipArchive,
        UniformDataType::JavaArchive,
        UniformDataType::GnuTarArchive,
        UniformDataType::GnuZipArchive,
        UniformDataType::GnuZipTarArchive,
        UniformDataType::Calendar,
        UniformDataType::Contact,
        UniformDataType::Database,
        UniformDataType::Message,
        UniformDataType::Vcard,
        UniformDataType::Navigation,
        UniformDataType::Location,
        UniformDataType::OpenHarmonyForm,
        UniformDataType::OpenHarmonyAppItem,
        UniformDataType::OpenHarmonyPixelMap,
        UniformDataType::OpenHarmonyAtomicService,
        UniformDataType::OpenHarmonyPackage,
        UniformDataType::OpenHarmonyHap,
        UniformDataType::Smil,
        UniformDataType::Markdown,
        UniformDataType::Fax,
        UniformDataType::JfxFax,
        UniformDataType::EfxFax,
        UniformDataType::XbitmapImage,
        UniformDataType::TgaImage,
        UniformDataType::SgiImage,
        UniformDataType::OpenexrImage,
        UniformDataType::FlashpixImage,
        UniformDataType::Realmedia,
        UniformDataType::AuAudio,
        UniformDataType::AifcAudio,
        UniformDataType::Sd2Audio,
        UniformDataType::Realaudio,
        UniformDataType::Openxml,
        UniformDataType::WordprocessingmlDocument,
        UniformDataType::SpreadsheetmlSheet,
        UniformDataType::PresentationmlPresentation,
        UniformDataType::Opendocument,
        UniformDataType::OpendocumentText,
        UniformDataType::OpendocumentSpreadsheet,
        UniformDataType::OpendocumentPresentation,
        UniformDataType::OpendocumentGraphics,
        UniformDataType::OpendocumentFormula,
        UniformDataType::StuffitArchive,
        UniformDataType::Vcs,
        UniformDataType::Ics,
        UniformDataType::Executable,
        UniformDataType::PortableExecutable,
        UniformDataType::SunJavaClass,
        UniformDataType::Font,
        UniformDataType::TruetypeFont,
        UniformDataType::TruetypeCollectionFont,
        UniformDataType::OpentypeFont,
        UniformDataType::PostscriptFont,
        UniformDataType::PostscriptPfbFont,
        UniformDataType::PostscriptPfaFont,
        UniformDataType::OpenHarmonyHdoc,
        UniformDataType::OpenHarmonyHinote,
        UniformDataType::OpenHarmonyStyledString,
        UniformDataType::OpenHarmonyWant,
        UniformDataType::GeneralFileUri,
        UniformDataType::GeneralContentForm,
    ]
}

#[test]
fn test_wire_round_trip_all_well_known() {
    for t in all_well_known() {
        let wire = t.to_wire();
        let back = UniformDataType::from_wire(&wire);
        assert_eq!(back, t);
        assert!(!matches!(back, UniformDataType::Other(_)));
        let c_bytes = t.to_cstr().expect("every well-known tag marshals");
        assert_eq!(c_bytes.len(), wire.len() + 1);
        assert_eq!(c_bytes[c_bytes.len() - 1], 0);
    }
}

#[test]
fn test_wire_strings_exact() {
    assert_eq!(UniformDataType::PlainText.to_wire(), "general.plain-text");
    assert_eq!(UniformDataType::Text.to_wire(), "general.text");
    assert_eq!(UniformDataType::Entity.to_wire(), "general.entity");
    assert_eq!(UniformDataType::Hyperlink.to_wire(), "general.hyperlink");
    assert_eq!(UniformDataType::Html.to_wire(), "general.html");
    assert_eq!(UniformDataType::OpenHarmonyPixelMap.to_wire(), "openharmony.pixel-map");
    assert_eq!(UniformDataType::OpenHarmonyAppItem.to_wire(), "openharmony.app-item");
    assert_eq!(UniformDataType::GeneralFileUri.to_wire(), "general.file-uri");
    assert_eq!(UniformDataType::GeneralContentForm.to_wire(), "general.content-form");
    assert_eq!(UniformDataType::ZipArchive.to_wire(), "general.zip-archive");
    assert_eq!(UniformDataType::Jpeg.to_wire(), "general.jpeg");
    assert_eq!(
        UniformDataType::Other(String::from("custom.type")).to_wire(),
        "custom.type"
    );
}

#[test]
fn test_from_wire_structural() {
    assert!(matches!(
        UniformDataType::from_wire("general.plain-text"),
        UniformDataType::PlainText
    ));
    assert!(matches!(
        UniformDataType::from_wire("general.entity"),
        UniformDataType::Entity
    ));
    assert!(matches!(
        UniformDataType::from_wire("general.content-form"),
        UniformDataType::GeneralContentForm
    ));
}

#[test]
fn test_from_wire_unknown_preserves_string() {
    let tag = UniformDataType::from_wire("vendor.experimental-kind");
    match tag {
        UniformDataType::Other(s) => assert_eq!(s, "vendor.experimental-kind"),
        _ => panic!("an unrecognized wire string must parse to Other"),
    }
    let empty = UniformDataType::from_wire("");
    match empty {
        UniformDataType::Other(s) => assert_eq!(s, ""),
        _ => panic!("the empty wire string must parse to Other"),
    }
}

#[test]
fn test_custom_tag_equality() {
    let a = UniformDataType::Other(String::from("custom.type"));
    let b = UniformDataType::Other(String::from("custom.type"));
    assert_eq!(a, b);

    let held = vec![a];
    let c = UniformDataType::Other(String::from("custom.type"));
    assert!(held.contains(&c));
    assert!(!held.contains(&UniformDataType::PlainText));
}

#[test]
fn test_equality_is_on_wire_string() {
    let spelled = UniformDataType::Other(String::from("general.text"));
    assert_eq!(spelled, UniformDataType::Text);
    assert_ne!(UniformDataType::Text, UniformDataType::PlainText);
    assert_ne!(
        UniformDataType::Other(String::from("custom.a")),
        UniformDataType::Other(String::from("custom.b"))
    );
}

#[test]
fn test_to_cstr_terminated() {
    let bytes = UniformDataType::PlainText.to_cstr().expect("well-known tag");
    assert_eq!(bytes, b"general.plain-text\0".to_vec());
    let custom = UniformDataType::Other(String::from("custom.type"))
        .to_cstr()
        .expect("clean custom tag");
    assert_eq!(custom, b"custom.type\0".to_vec());
}

#[test]
fn test_tags_of_wire_list_skips_absent_entries() {
    let items = vec![
        Some(String::from("general.plain-text")),
        None,
        Some(String::from("custom.type")),
        None,
        Some(String::from("general.text")),
    ];
    let tags = udmf::types::tags_of_wire_list(items);
    assert_eq!(tags.len(), 3);
    assert!(matches!(tags[0], UniformDataType::PlainText));
    assert_eq!(tags[1], UniformDataType::Other(String::from("custom.type")));
    assert!(matches!(tags[2], UniformDataType::Text));
}

#[test]
fn test_tag_or_empty() {
    assert_eq!(
        udmf::types::tag_or_empty(None),
        UniformDataType::Other(String::new())
    );
    assert!(matches!(
        udmf::types::tag_or_empty(Some(String::from("general.plain-text"))),
        UniformDataType::PlainText
    ));
    assert_eq!(
        udmf::types::tag_or_empty(Some(String::from("custom.kind"))),
        UniformDataType::Other(String::from("custom.kind"))
    );
}

#[test]
fn test_tags_of_wire_list_empty() {
    assert_eq!(udmf::types::tags_of_wire_list(Vec::new()).len(), 0);
    assert_eq!(udmf::types::tags_of_wire_list(vec![None, None]).len(), 0);
}

#[test]
fn test_to_cstr_rejects_embedded_nul() {
    let bad = UniformDataType::Other(String::from("custom\0type"));
    assert_eq!(bad.to_cstr(), Err(udmf::UdmfError::InvalidParam));
}

