//! Decks of slides, their provenance, and the content that each slide shows.
use vstd::prelude::*;

use crate::text::{
    drop_blank, is_blank, is_normalized_optional, is_trimmed, lemma_normalized_is_normalized,
    lemma_normalized_optional, lemma_trimmed_is_trimmed, non_blank_optional,
    normalized_optional, optional_view, trim_optional, trim_text, trimmed,
};

verus! {

/// A deck: slides in the order in which they are presented, and the entity
/// that the deck was made from.
///
/// `T` is the linked source entity (a song, a Bible verse); `M` is the media
/// type (a song file, a path).
#[derive(Clone, PartialEq, Debug)]
pub struct PresentationChapter<T, M> {
    pub slides: Vec<Slide<M>>,
    pub linked_entity: LinkedEntity<T, M>,
}

/// The entity from which a presentation is derived, most likely a song or a
/// Bible verse.
#[derive(Clone, PartialEq, Debug)]
pub enum LinkedEntity<T, M> {
    /// A specific source record
    Source(T),
    /// A bare title
    Title(String),
    /// A specific media entity
    Media(M),
}

/// One displayable unit: its content and, optionally, media attached to it.
#[derive(Clone, PartialEq, Debug)]
pub struct Slide<M> {
    pub slide_content: SlideContent,
    pub linked_file: Option<M>,
}

/// What a slide shows.
#[derive(Clone, PartialEq, Debug)]
pub enum SlideContent {
    SingleLanguageMainContent(SingleLanguageMainContentSlide),
    Title(TitleSlide),
    MultiLanguageMainContent(MultiLanguageMainContentSlide),
    SimplePicture(SimplePictureSlide),
    Empty(EmptySlide),
}

/// Main text in one language, with optional spoiler and meta text.
#[derive(Clone, PartialEq, Debug)]
pub struct SingleLanguageMainContentSlide {
    pub main_text: String,
    pub spoiler_text: Option<String>,
    pub meta_text: Option<String>,
}

/// Main text and spoiler text in several languages, matched by position.
#[derive(Clone, PartialEq, Debug)]
pub struct MultiLanguageMainContentSlide {
    pub main_text_list: Vec<String>,
    pub spoiler_text_vector: Vec<String>,
    pub meta_text: Option<String>,
}

/// A blank slide, on a black background or on the default one.
#[derive(Clone, PartialEq, Debug)]
pub struct EmptySlide {
    pub black_background: bool,
}

/// A title, with optional meta text.
#[derive(Clone, PartialEq, Debug)]
pub struct TitleSlide {
    pub title_text: String,
    pub meta_text: Option<String>,
}

/// A picture, given by the path of the image.
#[derive(Clone, PartialEq, Debug)]
pub struct SimplePictureSlide {
    pub picture_path: String,
}

impl SlideContent {
    /// The text fields are in the form in which the constructors store them:
    /// trimmed, with optional text absent rather than blank.
    pub open spec fn is_normalized(&self) -> bool {
        match self {
            SlideContent::SingleLanguageMainContent(c) => {
                &&& is_trimmed(c.main_text@)
                &&& is_normalized_optional(optional_view(c.spoiler_text))
                &&& is_normalized_optional(optional_view(c.meta_text))
            },
            SlideContent::Title(c) => {
                &&& is_trimmed(c.title_text@)
                &&& is_normalized_optional(optional_view(c.meta_text))
            },
            SlideContent::MultiLanguageMainContent(c) => {
                &&& forall|i: int|
                    0 <= i < c.main_text_list@.len() ==> is_trimmed(
                        #[trigger] c.main_text_list@[i]@,
                    )
                &&& forall|i: int|
                    0 <= i < c.spoiler_text_vector@.len() ==> is_trimmed(
                        #[trigger] c.spoiler_text_vector@[i]@,
                    )
                &&& is_normalized_optional(optional_view(c.meta_text))
            },
            SlideContent::SimplePicture(_) => true,
            SlideContent::Empty(_) => true,
        }
    }
}

impl SingleLanguageMainContentSlide {
    /// Keeps the main text as given; a spoiler or meta text that is blank
    /// becomes absent.
    fn new(main_text: String, spoiler_text: Option<String>, meta_text: Option<String>) -> (r: Self)
        ensures
            r.main_text@ == main_text@,
            optional_view(r.spoiler_text) == non_blank_optional(
                optional_view(spoiler_text),
            ),
            optional_view(r.meta_text) == non_blank_optional(
                optional_view(meta_text),
            ),
    {
        SingleLanguageMainContentSlide {
            main_text,
            spoiler_text: drop_blank(spoiler_text),
            meta_text: drop_blank(meta_text),
        }
    }
}

impl<T, M> PresentationChapter<T, M> {
    /// A deck of the given slides, in the given order, made from the given
    /// entity.
    pub fn new(slides: Vec<Slide<M>>, linked_entity: LinkedEntity<T, M>) -> (r: Self)
        ensures
            r.slides == slides,
            r.linked_entity == linked_entity,
    {
        PresentationChapter { slides, linked_entity }
    }
}

impl<M> Slide<M> {
    /// The slide has spoiler text: present spoiler text in one language, or
    /// spoiler text in at least one of several languages.
    pub open spec fn spoiler_present(&self) -> bool {
        match self.slide_content {
            SlideContent::SingleLanguageMainContent(c) => c.spoiler_text is Some,
            SlideContent::MultiLanguageMainContent(c) => c.spoiler_text_vector@.len() > 0,
            _ => false,
        }
    }

    /// The slide's content has a meta text field, and it is present.
    pub open spec fn meta_text_present(&self) -> bool {
        match self.slide_content {
            SlideContent::SingleLanguageMainContent(c) => c.meta_text is Some,
            SlideContent::Title(c) => c.meta_text is Some,
            SlideContent::MultiLanguageMainContent(c) => c.meta_text is Some,
            _ => false,
        }
    }

    /// A blank slide with no media attached.
    pub fn new_empty_slide(black_background: bool) -> (r: Self)
        ensures
            r.slide_content == SlideContent::Empty(EmptySlide { black_background }),
            r.linked_file is None,
            r.slide_content.is_normalized(),
            !r.spoiler_present(),
            !r.meta_text_present(),
    {
        Slide { slide_content: SlideContent::Empty(EmptySlide { black_background }), linked_file: None }
    }

    /// A slide of main text in one language, with no media attached. The main
    /// text is stored trimmed; spoiler and meta text are stored trimmed, and
    /// absent where they are blank.
    pub fn new_content_slide(
        main_text: String,
        spoiler_text: Option<String>,
        meta_text: Option<String>,
    ) -> (r: Self)
        ensures
            r.slide_content matches SlideContent::SingleLanguageMainContent(c) && {
                &&& c.main_text@ == trimmed(main_text@)
                &&& optional_view(c.spoiler_text) == normalized_optional(
                    optional_view(spoiler_text),
                )
                &&& optional_view(c.meta_text) == normalized_optional(optional_view(meta_text))
            },
            r.linked_file is None,
            r.slide_content.is_normalized(),
            r.spoiler_present() == (normalized_optional(optional_view(spoiler_text)) is Some),
            r.meta_text_present() == (normalized_optional(optional_view(meta_text)) is Some),
            spoiler_text matches Some(s) && is_blank(s@) ==> !r.spoiler_present(),
            meta_text matches Some(s) && is_blank(s@) ==> !r.meta_text_present(),
    {
        let main = trim_text(main_text.as_str());
        let content = SingleLanguageMainContentSlide::new(
            main,
            trim_optional(spoiler_text),
            trim_optional(meta_text),
        );
        proof {
            lemma_trimmed_is_trimmed(main_text@);
            lemma_normalized_optional(optional_view(spoiler_text));
            lemma_normalized_optional(optional_view(meta_text));
            lemma_normalized_is_normalized(optional_view(spoiler_text));
            lemma_normalized_is_normalized(optional_view(meta_text));
        }
        Slide { slide_content: SlideContent::SingleLanguageMainContent(content), linked_file: None }
    }

    /// A title slide with no media attached. The title is stored trimmed; the
    /// meta text is stored trimmed, and absent where it is blank.
    pub fn new_title_slide(title_text: String, meta_text: Option<String>) -> (r: Self)
        ensures
            r.slide_content matches SlideContent::Title(c) && {
                &&& c.title_text@ == trimmed(title_text@)
                &&& optional_view(c.meta_text) == normalized_optional(optional_view(meta_text))
            },
            r.linked_file is None,
            r.slide_content.is_normalized(),
            !r.spoiler_present(),
            r.meta_text_present() == (normalized_optional(optional_view(meta_text)) is Some),
            meta_text matches Some(s) && is_blank(s@) ==> !r.meta_text_present(),
    {
        let title = trim_text(title_text.as_str());
        let meta = drop_blank(trim_optional(meta_text));
        proof {
            lemma_trimmed_is_trimmed(title_text@);
            lemma_normalized_optional(optional_view(meta_text));
            lemma_normalized_is_normalized(optional_view(meta_text));
        }
        Slide {
            slide_content: SlideContent::Title(TitleSlide { title_text: title, meta_text: meta }),
            linked_file: None,
        }
    }

    /// The same slide with the given media attached, in place of any media
    /// attached before.
    pub fn with_media(self, media: M) -> (r: Self)
        ensures
            r.slide_content == self.slide_content,
            r.linked_file == Some(media),
    {
        Slide { slide_content: self.slide_content, linked_file: Some(media) }
    }

    /// Whether the slide has spoiler text. Blank, title and picture slides
    /// never have any.
    pub fn has_spoiler(&self) -> (r: bool)
        ensures
            r == self.spoiler_present(),
            self.slide_content is Empty ==> !r,
            self.slide_content is Title ==> !r,
            self.slide_content is SimplePicture ==> !r,
    {
        match &self.slide_content {
            SlideContent::SingleLanguageMainContent(c) => c.spoiler_text.is_some(),
            SlideContent::MultiLanguageMainContent(c) => !c.spoiler_text_vector.is_empty(),
            _ => false,
        }
    }

    /// Whether the slide has meta text. Blank and picture slides have no
    /// field for it.
    pub fn has_meta_text(&self) -> (r: bool)
        ensures
            r == self.meta_text_present(),
            self.slide_content is Empty ==> !r,
            self.slide_content is SimplePicture ==> !r,
    {
        match &self.slide_content {
            SlideContent::SingleLanguageMainContent(c) => c.meta_text.is_some(),
            SlideContent::Title(c) => c.meta_text.is_some(),
            SlideContent::MultiLanguageMainContent(c) => c.meta_text.is_some(),
            _ => false,
        }
    }
}

} // verus!
