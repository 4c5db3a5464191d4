//! Which fonts the gallery uses: the families chosen at startup and the
//! bundled files handed to the toolkit.

use vstd::prelude::*;

verus! {

/// The weights in which the interface font is used.
#[derive(Debug, Clone, Copy, PartialEq, Eq)]
pub enum Weight {
    Bold,
    Semibold,
    Regular,
}

/// A font of the gallery: a weight, and a family once one has been chosen.
#[derive(Debug, Clone)]
pub struct Font {
    pub weight: Weight,
    pub family: Option<String>,
}

/// The four fonts that the gallery draws with.
#[derive(Debug, Clone)]
pub struct Fonts {
    pub ui_regular: Font,
    pub ui_bold: Font,
    pub ui_semibold: Font,
    pub fluent_icons: Font,
}

/// A family that may serve, and whether the file of its regular weight could
/// be read.
#[derive(Debug, Clone)]
pub struct Candidate {
    pub name: String,
    pub available: bool,
}

/// The name of the first candidate that is available, if there is one.
pub open spec fn chosen(candidates: Seq<Candidate>) -> Option<String>
    decreases candidates.len(),
{
    if candidates.len() == 0 {
        None
    } else if candidates[0].available {
        Some(candidates[0].name)
    } else {
        chosen(candidates.subrange(1, candidates.len() as int))
    }
}

impl Font {
    /// This font once `name` has been offered to it: a family that was chosen
    /// before stays.
    pub open spec fn named(self, name: Option<String>) -> Font {
        if self.family is None && name is Some {
            Font { family: name, ..self }
        } else {
            self
        }
    }

    /// A font of the given weight with no family yet.
    pub fn new(weight: Weight) -> (r: Font)
        ensures
            r.weight == weight,
            r.family is None,
    {
        Font { weight, family: None }
    }

    /// Gives the font its family, unless it has one already.
    pub fn set(&mut self, name: String)
        ensures
            *final(self) == old(self).named(Some(name)),
    {
        if self.family.is_none() {
            self.family = Some(name);
        }
    }
}

impl Fonts {
    /// The four fonts, none with a family yet.
    pub fn new() -> (r: Fonts)
        ensures
            r.ui_regular == (Font { weight: Weight::Regular, family: None }),
            r.ui_bold == (Font { weight: Weight::Bold, family: None }),
            r.ui_semibold == (Font { weight: Weight::Semibold, family: None }),
            r.fluent_icons == (Font { weight: Weight::Regular, family: None }),
    {
        Fonts {
            ui_regular: Font::new(Weight::Regular),
            ui_bold: Font::new(Weight::Bold),
            ui_semibold: Font::new(Weight::Semibold),
            fluent_icons: Font::new(Weight::Regular),
        }
    }
}

/// The name of the first candidate that is available, if there is one.
pub fn choose_family(candidates: &Vec<Candidate>) -> (r: Option<String>)
    ensures
        r == chosen(candidates@),
{
    let mut i: usize = 0;
    assert(candidates@.subrange(0, candidates.len() as int) =~= candidates@);
    while i < candidates.len()
        invariant
            i <= candidates.len(),
            chosen(candidates@) == chosen(candidates@.subrange(i as int, candidates.len() as int)),
        decreases candidates.len() - i,
    {
        let ghost rest = candidates@.subrange(i as int, candidates.len() as int);
        assert(rest[0] == candidates[i as int]);
        assert(rest.subrange(1, rest.len() as int) =~= candidates@.subrange(
            i + 1,
            candidates.len() as int,
        ));
        if candidates[i].available {
            return Some(candidates[i].name.clone());
        }
        i += 1;
    }
    None
}

/// Gives each font its family: the three interface fonts the first available
/// of `ui`, the icon font the first available of `icons`. A font keeps the
/// family it has, and stays without one where no candidate is available.
pub fn set(fonts: &mut Fonts, ui: &Vec<Candidate>, icons: &Vec<Candidate>)
    ensures
        final(fonts).ui_regular == old(fonts).ui_regular.named(chosen(ui@)),
        final(fonts).ui_bold == old(fonts).ui_bold.named(chosen(ui@)),
        final(fonts).ui_semibold == old(fonts).ui_semibold.named(chosen(ui@)),
        final(fonts).fluent_icons == old(fonts).fluent_icons.named(chosen(icons@)),
{
    match choose_family(ui) {
        Some(name) => {
            fonts.ui_regular.set(name.clone());
            fonts.ui_bold.set(name.clone());
            fonts.ui_semibold.set(name);
        },
        None => {},
    }
    match choose_family(icons) {
        Some(name) => {
            fonts.fluent_icons.set(name);
        },
        None => {},
    }
}

/// The bundled font files in the order in which the toolkit gets them:
/// regular, semibold, bold, icons.
pub fn load(regular: Vec<u8>, semibold: Vec<u8>, bold: Vec<u8>, icons: Vec<u8>) -> (r: Vec<Vec<u8>>)
    ensures
        r@ == seq![regular, semibold, bold, icons],
{
    let mut files: Vec<Vec<u8>> = Vec::new();
    files.push(regular);
    files.push(semibold);
    files.push(bold);
    files.push(icons);
    assert(files@ =~= seq![regular, semibold, bold, icons]);
    files
}

} // verus!
