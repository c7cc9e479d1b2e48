//! The program catalog: metadata describing known program images (titles,
//! authors, tickrates, colors, key layouts), keyed by the hexadecimal SHA-1
//! digest of the image. The catalog's contents arrive from outside; here
//! live the types and the accessors the presentation layer reads.

use vstd::prelude::*;
use crate::text::{dec_u16, join_strings, spec_dec, spec_join, str_owned};

verus! {

// ---------------------------------------------------------------------------
// Colors
// ---------------------------------------------------------------------------

/// The view of a color scheme: pixel colors and the optional buzzer and
/// silence colors, each a text naming a color.
pub struct ColorsView {
    pub pixels: Seq<Seq<char>>,
    pub buzzer: Option<Seq<char>>,
    pub silence: Option<Seq<char>>,
}

/// The color scheme a catalog entry suggests for a program.
pub struct Colors {
    pixels: Vec<String>,
    buzzer: Option<String>,
    silence: Option<String>,
}

impl View for Colors {
    type V = ColorsView;

    closed spec fn view(&self) -> ColorsView {
        ColorsView {
            pixels: self.pixels.deep_view(),
            buzzer: self.buzzer.deep_view(),
            silence: self.silence.deep_view(),
        }
    }
}

impl Colors {
    pub fn new(pixels: Vec<String>, buzzer: Option<String>, silence: Option<String>) -> (colors:
        Colors)
        ensures
            colors@.pixels == pixels.deep_view(),
            colors@.buzzer == buzzer.deep_view(),
            colors@.silence == silence.deep_view(),
    {
        Colors { pixels, buzzer, silence }
    }
}

// ---------------------------------------------------------------------------
// Keys
// ---------------------------------------------------------------------------

/// The view of a key layout: which machine key each logical role maps to,
/// where the catalog names one.
pub struct KeysView {
    pub up: Option<u8>,
    pub down: Option<u8>,
    pub left: Option<u8>,
    pub right: Option<u8>,
    pub a: Option<u8>,
    pub b: Option<u8>,
    pub player2_up: Option<u8>,
    pub player2_down: Option<u8>,
}

/// The key layout a catalog entry suggests for a program.
pub struct Keys {
    up: Option<u8>,
    down: Option<u8>,
    left: Option<u8>,
    right: Option<u8>,
    a: Option<u8>,
    b: Option<u8>,
    player2_up: Option<u8>,
    player2_down: Option<u8>,
}

impl View for Keys {
    type V = KeysView;

    closed spec fn view(&self) -> KeysView {
        KeysView {
            up: self.up,
            down: self.down,
            left: self.left,
            right: self.right,
            a: self.a,
            b: self.b,
            player2_up: self.player2_up,
            player2_down: self.player2_down,
        }
    }
}

impl Keys {
    #[allow(clippy::too_many_arguments)]
    pub fn new(
        up: Option<u8>,
        down: Option<u8>,
        left: Option<u8>,
        right: Option<u8>,
        a: Option<u8>,
        b: Option<u8>,
        player2_up: Option<u8>,
        player2_down: Option<u8>,
    ) -> (keys: Keys)
        ensures
            keys@ == (KeysView { up, down, left, right, a, b, player2_up, player2_down }),
    {
        Keys { up, down, left, right, a, b, player2_up, player2_down }
    }
}

// ---------------------------------------------------------------------------
// Rom
// ---------------------------------------------------------------------------

/// The view of one program image's catalog entry.
pub struct RomView {
    pub file: Seq<char>,
    pub platforms: Seq<Seq<char>>,
    pub tickrate: Option<u16>,
    pub colors: Option<ColorsView>,
    pub keys: Option<KeysView>,
    pub description: Option<Seq<char>>,
    pub embedded_title: Option<Seq<char>>,
    pub touch_input_mode: Option<Seq<char>>,
    pub font_style: Option<Seq<char>>,
    pub release: Option<Seq<char>>,
    pub screen_rotation: Option<u16>,
}

/// The catalog entry for one program image: its file name, the platforms
/// it runs on, and the optional presentation hints.
pub struct Rom {
    file: String,
    platforms: Vec<String>,
    tickrate: Option<u16>,
    colors: Option<Colors>,
    keys: Option<Keys>,
    description: Option<String>,
    embedded_title: Option<String>,
    touch_input_mode: Option<String>,
    font_style: Option<String>,
    release: Option<String>,
    screen_rotation: Option<u16>,
}

impl View for Rom {
    type V = RomView;

    closed spec fn view(&self) -> RomView {
        RomView {
            file: self.file@,
            platforms: self.platforms.deep_view(),
            tickrate: self.tickrate,
            colors: match self.colors {
                Some(colors) => Some(colors@),
                None => None,
            },
            keys: match self.keys {
                Some(keys) => Some(keys@),
                None => None,
            },
            description: self.description.deep_view(),
            embedded_title: self.embedded_title.deep_view(),
            touch_input_mode: self.touch_input_mode.deep_view(),
            font_style: self.font_style.deep_view(),
            release: self.release.deep_view(),
            screen_rotation: self.screen_rotation,
        }
    }
}

impl Rom {
    #[allow(clippy::too_many_arguments)]
    pub fn new(
        file: String,
        platforms: Vec<String>,
        tickrate: Option<u16>,
        colors: Option<Colors>,
        keys: Option<Keys>,
        description: Option<String>,
        embedded_title: Option<String>,
        touch_input_mode: Option<String>,
        font_style: Option<String>,
        release: Option<String>,
        screen_rotation: Option<u16>,
    ) -> (rom: Rom)
        ensures
            rom@.file == file@,
            rom@.platforms == platforms.deep_view(),
            rom@.tickrate == tickrate,
            rom@.colors == (match colors {
                Some(colors) => Some(colors@),
                None => None::<ColorsView>,
            }),
            rom@.keys == (match keys {
                Some(keys) => Some(keys@),
                None => None::<KeysView>,
            }),
            rom@.description == description.deep_view(),
            rom@.embedded_title == embedded_title.deep_view(),
            rom@.touch_input_mode == touch_input_mode.deep_view(),
            rom@.font_style == font_style.deep_view(),
            rom@.release == release.deep_view(),
            rom@.screen_rotation == screen_rotation,
    {
        Rom {
            file,
            platforms,
            tickrate,
            colors,
            keys,
            description,
            embedded_title,
            touch_input_mode,
            font_style,
            release,
            screen_rotation,
        }
    }

    pub fn get_file(&self) -> (file: &str)
        ensures
            file@ == self@.file,
    {
        self.file.as_str()
    }

    /// The platforms joined with commas; nothing at all for none.
    pub fn get_platforms(&self) -> (platforms: String)
        ensures
            platforms@ == spec_join(self@.platforms, ", "@),
    {
        if self.platforms.is_empty() {
            let empty = String::new();
            proof {
                assert(spec_join(self@.platforms, ", "@) =~= Seq::<char>::empty());
            }
            empty
        } else {
            join_strings(&self.platforms, ", ")
        }
    }

    pub fn get_tickrate(&self) -> (tickrate: Option<u16>)
        ensures
            tickrate == self@.tickrate,
    {
        self.tickrate
    }

    /// Only whether a color scheme exists is reported, as a text.
    pub fn get_colors(&self) -> (colors: Option<String>)
        ensures
            colors is Some <==> self@.colors is Some,
            colors matches Some(text) ==> text@ == "Colors exist"@,
    {
        match &self.colors {
            Some(_) => Some(str_owned("Colors exist")),
            None => None,
        }
    }

    /// Only whether a key layout exists is reported, as a text.
    pub fn get_keys(&self) -> (keys: Option<String>)
        ensures
            keys is Some <==> self@.keys is Some,
            keys matches Some(text) ==> text@ == "Keys exist"@,
    {
        match &self.keys {
            Some(_) => Some(str_owned("Keys exist")),
            None => None,
        }
    }

    pub fn get_description(&self) -> (description: Option<&str>)
        ensures
            description is Some <==> self@.description is Some,
            description matches Some(text) ==> text@ == self@.description->0,
    {
        match &self.description {
            Some(text) => Some(text.as_str()),
            None => None,
        }
    }

    pub fn get_embedded_title(&self) -> (embedded_title: Option<&str>)
        ensures
            embedded_title is Some <==> self@.embedded_title is Some,
            embedded_title matches Some(text) ==> text@ == self@.embedded_title->0,
    {
        match &self.embedded_title {
            Some(text) => Some(text.as_str()),
            None => None,
        }
    }

    pub fn get_touch_input_mode(&self) -> (touch_input_mode: Option<&str>)
        ensures
            touch_input_mode is Some <==> self@.touch_input_mode is Some,
            touch_input_mode matches Some(text) ==> text@ == self@.touch_input_mode->0,
    {
        match &self.touch_input_mode {
            Some(text) => Some(text.as_str()),
            None => None,
        }
    }

    pub fn get_font_style(&self) -> (font_style: Option<&str>)
        ensures
            font_style is Some <==> self@.font_style is Some,
            font_style matches Some(text) ==> text@ == self@.font_style->0,
    {
        match &self.font_style {
            Some(text) => Some(text.as_str()),
            None => None,
        }
    }

    pub fn get_release(&self) -> (release: Option<&str>)
        ensures
            release is Some <==> self@.release is Some,
            release matches Some(text) ==> text@ == self@.release->0,
    {
        match &self.release {
            Some(text) => Some(text.as_str()),
            None => None,
        }
    }

    /// The screen rotation angle rendered in decimal, where one is named.
    pub fn get_screen_rotation(&self) -> (screen_rotation: Option<String>)
        ensures
            screen_rotation is Some <==> self@.screen_rotation is Some,
            screen_rotation matches Some(text) ==> text@ == spec_dec(
                self@.screen_rotation->0 as int,
            ),
    {
        match self.screen_rotation {
            Some(rotation) => Some(dec_u16(rotation)),
            None => None,
        }
    }
}

// ---------------------------------------------------------------------------
// Origin
// ---------------------------------------------------------------------------

/// The view of a program's origin: what kind of source it is, and the
/// reference itself.
pub struct OriginView {
    pub kind: Seq<char>,
    pub reference: Seq<char>,
}

/// Where a cataloged program comes from.
pub struct Origin {
    kind: String,
    reference: String,
}

impl View for Origin {
    type V = OriginView;

    closed spec fn view(&self) -> OriginView {
        OriginView { kind: self.kind@, reference: self.reference@ }
    }
}

impl Origin {
    pub fn new(kind: String, reference: String) -> (origin: Origin)
        ensures
            origin@.kind == kind@,
            origin@.reference == reference@,
    {
        Origin { kind, reference }
    }

    /// The origin as one text: the kind, a colon, the reference.
    pub fn to_text(&self) -> (text: String)
        ensures
            text@ == self@.kind + ": "@ + self@.reference,
    {
        let mut text = str_owned("");
        text.append(self.kind.as_str());
        text.append(": ");
        text.append(self.reference.as_str());
        proof {
            reveal_strlit("");
            assert(text@ =~= self@.kind + ": "@ + self@.reference);
        }
        text
    }
}

// ---------------------------------------------------------------------------
// Program
// ---------------------------------------------------------------------------

/// The view of a catalog program: its descriptive metadata, and the list
/// of image entries it carries, each under the image's digest.
pub struct ProgramView {
    pub title: Seq<char>,
    pub description: Option<Seq<char>>,
    pub release: Option<Seq<char>>,
    pub authors: Option<Seq<Seq<char>>>,
    pub images: Option<Seq<Seq<char>>>,
    pub roms: Seq<(Seq<char>, RomView)>,
    pub origin: Option<OriginView>,
    pub urls: Option<Seq<Seq<char>>>,
    pub copyright: Option<Seq<char>>,
}

/// The view of a digest-to-entry list.
pub open spec fn rom_list_view(roms: Seq<(String, Rom)>) -> Seq<(Seq<char>, RomView)> {
    Seq::new(roms.len(), |k: int| (roms[k].0@, roms[k].1@))
}

/// One program of the catalog, with the images known to carry it, keyed by
/// their hexadecimal digest.
pub struct Program {
    title: String,
    description: Option<String>,
    release: Option<String>,
    authors: Option<Vec<String>>,
    images: Option<Vec<String>>,
    roms: Vec<(String, Rom)>,
    origin: Option<Origin>,
    urls: Option<Vec<String>>,
    copyright: Option<String>,
}

impl View for Program {
    type V = ProgramView;

    closed spec fn view(&self) -> ProgramView {
        ProgramView {
            title: self.title@,
            description: self.description.deep_view(),
            release: self.release.deep_view(),
            authors: match self.authors {
                Some(authors) => Some(authors.deep_view()),
                None => None,
            },
            images: match self.images {
                Some(images) => Some(images.deep_view()),
                None => None,
            },
            roms: rom_list_view(self.roms@),
            origin: match self.origin {
                Some(origin) => Some(origin@),
                None => None,
            },
            urls: match self.urls {
                Some(urls) => Some(urls.deep_view()),
                None => None,
            },
            copyright: self.copyright.deep_view(),
        }
    }
}

impl Program {
    #[allow(clippy::too_many_arguments)]
    pub fn new(
        title: String,
        description: Option<String>,
        release: Option<String>,
        authors: Option<Vec<String>>,
        images: Option<Vec<String>>,
        roms: Vec<(String, Rom)>,
        origin: Option<Origin>,
        urls: Option<Vec<String>>,
        copyright: Option<String>,
    ) -> (program: Program)
        ensures
            program@.title == title@,
            program@.description == description.deep_view(),
            program@.release == release.deep_view(),
            program@.authors == (match authors {
                Some(authors) => Some(authors.deep_view()),
                None => None::<Seq<Seq<char>>>,
            }),
            program@.images == (match images {
                Some(images) => Some(images.deep_view()),
                None => None::<Seq<Seq<char>>>,
            }),
            program@.origin == (match origin {
                Some(origin) => Some(origin@),
                None => None::<OriginView>,
            }),
            program@.urls == (match urls {
                Some(urls) => Some(urls.deep_view()),
                None => None::<Seq<Seq<char>>>,
            }),
            program@.copyright == copyright.deep_view(),
            program@.roms == rom_list_view(roms@),
    {
        Program { title, description, release, authors, images, roms, origin, urls, copyright }
    }

    /// The image entries this program is known under, each with its digest.
    pub fn get_roms(&self) -> (roms: &Vec<(String, Rom)>)
        ensures
            rom_list_view(roms@) == self@.roms,
    {
        &self.roms
    }

    pub fn get_title(&self) -> (title: &str)
        ensures
            title@ == self@.title,
    {
        self.title.as_str()
    }

    /// The description, or nothing at all where the catalog has none.
    pub fn get_description(&self) -> (description: &str)
        ensures
            description@ == (match self@.description {
                Some(text) => text,
                None => Seq::<char>::empty(),
            }),
    {
        match &self.description {
            Some(text) => text.as_str(),
            None => {
                proof {
                    reveal_strlit("");
                    assert(""@ =~= Seq::<char>::empty());
                }
                ""
            },
        }
    }

    /// The release, or nothing at all where the catalog has none.
    pub fn get_release(&self) -> (release: &str)
        ensures
            release@ == (match self@.release {
                Some(text) => text,
                None => Seq::<char>::empty(),
            }),
    {
        match &self.release {
            Some(text) => text.as_str(),
            None => {
                proof {
                    reveal_strlit("");
                    assert(""@ =~= Seq::<char>::empty());
                }
                ""
            },
        }
    }

    /// The authors joined with commas; nothing at all for none.
    pub fn get_authors(&self) -> (authors: String)
        ensures
            authors@ == (match self@.authors {
                Some(list) => spec_join(list, ", "@),
                None => Seq::<char>::empty(),
            }),
    {
        match &self.authors {
            Some(authors) => join_strings(authors, ", "),
            None => String::new(),
        }
    }

    /// The image links joined with commas, where the catalog has any.
    pub fn get_images(&self) -> (images: Option<String>)
        ensures
            images is Some <==> self@.images is Some,
            images matches Some(text) ==> text@ == spec_join(self@.images->0, ", "@),
    {
        match &self.images {
            Some(images) => Some(join_strings(images, ", ")),
            None => None,
        }
    }

    /// The origin as one text, where the catalog names one.
    pub fn get_origin(&self) -> (origin: Option<String>)
        ensures
            origin is Some <==> self@.origin is Some,
            origin matches Some(text) ==> text@ == self@.origin->0.kind + ": "@
                + self@.origin->0.reference,
    {
        match &self.origin {
            Some(origin) => Some(origin.to_text()),
            None => None,
        }
    }

    /// A copy of the link list, where the catalog has one.
    pub fn get_urls(&self) -> (urls: Option<Vec<String>>)
        ensures
            urls is Some <==> self@.urls is Some,
            urls matches Some(list) ==> list.deep_view() == self@.urls->0,
    {
        match &self.urls {
            Some(urls) => {
                let mut copy: Vec<String> = Vec::new();
                let mut k: usize = 0;
                while k < urls.len()
                    invariant
                        k <= urls@.len(),
                        copy@.len() == k,
                        forall|j: int| 0 <= j < k ==> copy@[j] == urls@[j],
                    decreases urls@.len() - k,
                {
                    copy.push(urls[k].clone());
                    k = k + 1;
                }
                proof {
                    assert(copy.deep_view() =~= urls.deep_view());
                }
                Some(copy)
            },
            None => None,
        }
    }

    pub fn get_copyright(&self) -> (copyright: Option<&str>)
        ensures
            copyright is Some <==> self@.copyright is Some,
            copyright matches Some(text) ==> text@ == self@.copyright->0,
    {
        match &self.copyright {
            Some(text) => Some(text.as_str()),
            None => None,
        }
    }
}

} // verus!
