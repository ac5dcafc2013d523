use cantara_slides::text::{drop_blank, is_blank_text, trim_optional, trim_text};
use cantara_slides::{
    EmptySlide, LinkedEntity, MultiLanguageMainContentSlide, PresentationChapter,
    SimplePictureSlide, Slide, SlideContent,
};

#[derive(Clone, PartialEq, Debug)]
pub struct Song {
    pub id: u32,
    pub title: String,
}

#[derive(Clone, PartialEq, Debug)]
pub struct SongFile {
    pub path: String,
}

type SongPresentation = PresentationChapter<Song, SongFile>;

#[test]
fn test_generic_presentation_creation() {
    let song = Song {
        id: 1,
        title: "Amazing Grace".to_string(),
    };
    let file = SongFile {
        path: "/assets/grace.mp3".to_string(),
    };

    let slide = Slide::new_content_slide(
        "Amazing grace, how sweet the sound".to_string(),
        None,
        Some("Verse 1".to_string()),
    )
    .with_media(file.clone());

    let presentation = SongPresentation::new(vec![slide], LinkedEntity::Source(song));

    assert_eq!(presentation.slides.len(), 1);
    assert!(presentation.slides[0].linked_file.is_some());

    if let Some(ref media) = presentation.slides[0].linked_file {
        assert_eq!(media.path, "/assets/grace.mp3");
    }
}

#[test]
fn test_different_generic_types() {
    let presentation = PresentationChapter::<String, String>::new(
        vec![Slide::new_empty_slide(true).with_media("background.png".into())],
        LinkedEntity::Title("Simple Show".into()),
    );

    assert_eq!(
        presentation.linked_entity,
        LinkedEntity::Title("Simple Show".into())
    );
}

fn single_language_fields(slide: &Slide<String>) -> (String, Option<String>, Option<String>) {
    match &slide.slide_content {
        SlideContent::SingleLanguageMainContent(c) => (
            c.main_text.clone(),
            c.spoiler_text.clone(),
            c.meta_text.clone(),
        ),
        other => panic!("not a single-language slide: {:?}", other),
    }
}

#[test]
fn content_slide_trims_main_text_and_keeps_meta() {
    let slide: Slide<String> = Slide::new_content_slide(
        "  Amazing grace  ".to_string(),
        None,
        Some("Verse 1".to_string()),
    );
    let (main, spoiler, meta) = single_language_fields(&slide);
    assert_eq!(main, "Amazing grace");
    assert_eq!(spoiler, None);
    assert_eq!(meta, Some("Verse 1".to_string()));
    assert!(!slide.has_spoiler());
    assert!(slide.has_meta_text());
    assert_eq!(slide.linked_file, None);
}

#[test]
fn content_slide_drops_whitespace_spoiler() {
    let slide: Slide<String> =
        Slide::new_content_slide("Hello".to_string(), Some("   ".to_string()), None);
    let (main, spoiler, meta) = single_language_fields(&slide);
    assert_eq!(main, "Hello");
    assert_eq!(spoiler, None);
    assert_eq!(meta, None);
    assert!(!slide.has_spoiler());
    assert!(!slide.has_meta_text());
}

#[test]
fn content_slide_trims_optional_text() {
    let slide: Slide<String> = Slide::new_content_slide(
        "\tLine one\n".to_string(),
        Some("  the answer \n".to_string()),
        Some("\u{3000}Psalm 23\u{a0}".to_string()),
    );
    let (main, spoiler, meta) = single_language_fields(&slide);
    assert_eq!(main, "Line one");
    assert_eq!(spoiler, Some("the answer".to_string()));
    assert_eq!(meta, Some("Psalm 23".to_string()));
    assert!(slide.has_spoiler());
    assert!(slide.has_meta_text());
}

#[test]
fn content_slide_drops_empty_and_unicode_blank_text() {
    let slide: Slide<String> = Slide::new_content_slide(
        "   ".to_string(),
        Some(String::new()),
        Some("\u{2003}\u{85}\r\n".to_string()),
    );
    let (main, spoiler, meta) = single_language_fields(&slide);
    assert_eq!(main, "");
    assert_eq!(spoiler, None);
    assert_eq!(meta, None);
    assert!(!slide.has_spoiler());
    assert!(!slide.has_meta_text());
}

#[test]
fn content_slide_keeps_inner_whitespace() {
    let slide: Slide<String> =
        Slide::new_content_slide(" a  b\tc ".to_string(), Some("x  y".to_string()), None);
    let (main, spoiler, _) = single_language_fields(&slide);
    assert_eq!(main, "a  b\tc");
    assert_eq!(spoiler, Some("x  y".to_string()));
}

#[test]
fn title_slide_trims_and_normalizes_meta() {
    let slide: Slide<String> =
        Slide::new_title_slide("  Opening  ".to_string(), Some(" \t ".to_string()));
    match &slide.slide_content {
        SlideContent::Title(t) => {
            assert_eq!(t.title_text, "Opening");
            assert_eq!(t.meta_text, None);
        }
        other => panic!("not a title slide: {:?}", other),
    }
    assert!(!slide.has_spoiler());
    assert!(!slide.has_meta_text());
    assert_eq!(slide.linked_file, None);
}

#[test]
fn title_slide_with_meta_text() {
    let slide: Slide<String> =
        Slide::new_title_slide("Hymn".to_string(), Some("  No. 12 ".to_string()));
    match &slide.slide_content {
        SlideContent::Title(t) => {
            assert_eq!(t.title_text, "Hymn");
            assert_eq!(t.meta_text, Some("No. 12".to_string()));
        }
        other => panic!("not a title slide: {:?}", other),
    }
    assert!(!slide.has_spoiler());
    assert!(slide.has_meta_text());
}

#[test]
fn empty_slide_has_no_spoiler_nor_meta() {
    for black in [true, false] {
        let slide: Slide<String> = Slide::new_empty_slide(black);
        assert_eq!(
            slide.slide_content,
            SlideContent::Empty(EmptySlide {
                black_background: black
            })
        );
        assert_eq!(slide.linked_file, None);
        assert!(!slide.has_spoiler());
        assert!(!slide.has_meta_text());
    }
}

#[test]
fn picture_slide_has_no_spoiler_nor_meta() {
    let slide: Slide<String> = Slide {
        slide_content: SlideContent::SimplePicture(SimplePictureSlide {
            picture_path: "/img/sunrise.jpg".to_string(),
        }),
        linked_file: None,
    };
    assert!(!slide.has_spoiler());
    assert!(!slide.has_meta_text());
}

#[test]
fn multi_language_slide_queries() {
    let with_spoiler: Slide<String> = Slide {
        slide_content: SlideContent::MultiLanguageMainContent(MultiLanguageMainContentSlide {
            main_text_list: vec!["Hallo".to_string(), "Hello".to_string()],
            spoiler_text_vector: vec!["Welt".to_string()],
            meta_text: None,
        }),
        linked_file: None,
    };
    assert!(with_spoiler.has_spoiler());
    assert!(!with_spoiler.has_meta_text());

    let without_spoiler: Slide<String> = Slide {
        slide_content: SlideContent::MultiLanguageMainContent(MultiLanguageMainContentSlide {
            main_text_list: vec!["Hallo".to_string()],
            spoiler_text_vector: vec![],
            meta_text: Some("Strophe 2".to_string()),
        }),
        linked_file: None,
    };
    assert!(!without_spoiler.has_spoiler());
    assert!(without_spoiler.has_meta_text());
}

#[test]
fn media_attached_is_read_back() {
    let slide: Slide<String> = Slide::new_title_slide("T".to_string(), None);
    assert_eq!(slide.linked_file, None);
    let content = slide.slide_content.clone();
    let slide = slide.with_media("first.png".to_string());
    assert_eq!(slide.linked_file, Some("first.png".to_string()));
    let slide = slide.with_media("second.png".to_string());
    assert_eq!(slide.linked_file, Some("second.png".to_string()));
    assert_eq!(slide.slide_content, content);
}

#[test]
fn chapter_keeps_slides_in_order() {
    let slides: Vec<Slide<String>> = vec![
        Slide::new_title_slide("One".to_string(), None),
        Slide::new_empty_slide(false),
        Slide::new_content_slide("Three".to_string(), None, None),
    ];
    let chapter = PresentationChapter::<Song, String>::new(
        slides.clone(),
        LinkedEntity::Media("track.mp3".to_string()),
    );
    assert_eq!(chapter.slides, slides);
    assert_eq!(
        chapter.linked_entity,
        LinkedEntity::Media("track.mp3".to_string())
    );

    let empty = PresentationChapter::<Song, String>::new(vec![], LinkedEntity::Title("".into()));
    assert!(empty.slides.is_empty());
}

#[test]
fn simple_show_chapter() {
    let chapter = PresentationChapter::<String, String>::new(
        vec![Slide::new_empty_slide(true).with_media("background.png".to_string())],
        LinkedEntity::Title("Simple Show".to_string()),
    );
    assert_eq!(chapter.slides.len(), 1);
    assert_eq!(
        chapter.slides[0].slide_content,
        SlideContent::Empty(EmptySlide {
            black_background: true
        })
    );
    assert_eq!(
        chapter.slides[0].linked_file,
        Some("background.png".to_string())
    );
    assert_eq!(
        chapter.linked_entity,
        LinkedEntity::Title("Simple Show".to_string())
    );
}

#[test]
fn text_helpers() {
    assert_eq!(trim_text("  a b \n"), "a b");
    assert_eq!(trim_text("\u{2028}x\u{3000}"), "x");
    assert_eq!(trim_text(""), "");
    assert!(is_blank_text(" \t\r\n"));
    assert!(is_blank_text(""));
    assert!(!is_blank_text(" . "));
    assert_eq!(trim_optional(Some(" z ".to_string())), Some("z".to_string()));
    assert_eq!(trim_optional(None), None);
    assert_eq!(drop_blank(Some("  ".to_string())), None);
    assert_eq!(drop_blank(Some(" k ".to_string())), Some(" k ".to_string()));
    assert_eq!(drop_blank(None), None);
}
