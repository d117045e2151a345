//! The GOOD document and the canonical key conversion.

use vstd::prelude::*;

verus! {

/// The views of a sequence of values.
pub open spec fn views<T: View>(s: Seq<T>) -> Seq<T::V> {
    s.map_values(|x: T| x@)
}

/// The view of an optional value.
pub open spec fn opt_view<T: View>(o: Option<T>) -> Option<T::V> {
    match o {
        Some(x) => Some(x@),
        None => None,
    }
}

/// A substat of an exported artifact: a property key and the summed
/// magnitude of its rolls, in millionths of the property's unit.
pub struct Substat {
    pub key: String,
    pub value: u64,
}

/// The value of a substat, with its text as characters.
pub struct SubstatView {
    pub key: Seq<char>,
    pub value: u64,
}

impl View for Substat {
    type V = SubstatView;

    open spec fn view(&self) -> SubstatView {
        SubstatView { key: self.key@, value: self.value }
    }
}

/// An exported artifact.
pub struct Artifact {
    pub set_key: String,
    pub slot_key: String,
    pub level: u32,
    pub rarity: u32,
    pub main_stat_key: String,
    pub location: String,
    pub lock: bool,
    pub substats: Vec<Substat>,
}

/// The value of an exported artifact, with its text as characters.
pub struct ArtifactView {
    pub set_key: Seq<char>,
    pub slot_key: Seq<char>,
    pub level: u32,
    pub rarity: u32,
    pub main_stat_key: Seq<char>,
    pub location: Seq<char>,
    pub lock: bool,
    pub substats: Seq<SubstatView>,
}

impl View for Artifact {
    type V = ArtifactView;

    open spec fn view(&self) -> ArtifactView {
        ArtifactView {
            set_key: self.set_key@,
            slot_key: self.slot_key@,
            level: self.level,
            rarity: self.rarity,
            main_stat_key: self.main_stat_key@,
            location: self.location@,
            lock: self.lock,
            substats: views(self.substats@),
        }
    }
}

/// An exported weapon.
pub struct Weapon {
    pub key: String,
    pub level: u32,
    pub ascension: u32,
    pub refinement: u32,
    pub location: String,
    pub lock: bool,
}

/// The value of an exported weapon, with its text as characters.
pub struct WeaponView {
    pub key: Seq<char>,
    pub level: u32,
    pub ascension: u32,
    pub refinement: u32,
    pub location: Seq<char>,
    pub lock: bool,
}

impl View for Weapon {
    type V = WeaponView;

    open spec fn view(&self) -> WeaponView {
        WeaponView {
            key: self.key@,
            level: self.level,
            ascension: self.ascension,
            refinement: self.refinement,
            location: self.location@,
            lock: self.lock,
        }
    }
}

/// The levels of a character's three skills.
#[derive(Clone, Copy, Debug, PartialEq, Eq, Structural)]
pub struct TalentLevel {
    pub auto: u32,
    pub skill: u32,
    pub burst: u32,
}

/// An exported character.
pub struct Character {
    pub key: String,
    pub level: u32,
    pub constellation: u32,
    pub ascension: u32,
    pub talent: TalentLevel,
}

/// The value of an exported character, with its text as characters.
pub struct CharacterView {
    pub key: Seq<char>,
    pub level: u32,
    pub constellation: u32,
    pub ascension: u32,
    pub talent: TalentLevel,
}

impl View for Character {
    type V = CharacterView;

    open spec fn view(&self) -> CharacterView {
        CharacterView {
            key: self.key@,
            level: self.level,
            constellation: self.constellation,
            ascension: self.ascension,
            talent: self.talent,
        }
    }
}

/// One entry of the material section: a material key and a count.
pub struct MaterialCount {
    pub key: String,
    pub count: u32,
}

/// The value of a material entry, with its text as characters.
pub struct MaterialCountView {
    pub key: Seq<char>,
    pub count: u32,
}

impl View for MaterialCount {
    type V = MaterialCountView;

    open spec fn view(&self) -> MaterialCountView {
        MaterialCountView { key: self.key@, count: self.count }
    }
}

/// The export document. The material section holds each key once.
pub struct Good {
    pub format: String,
    pub version: u32,
    pub source: String,
    pub characters: Vec<Character>,
    pub artifacts: Vec<Artifact>,
    pub weapons: Vec<Weapon>,
    pub materials: Vec<MaterialCount>,
}

/// The value of the export document, with its text as characters.
pub struct GoodView {
    pub format: Seq<char>,
    pub version: u32,
    pub source: Seq<char>,
    pub characters: Seq<CharacterView>,
    pub artifacts: Seq<ArtifactView>,
    pub weapons: Seq<WeaponView>,
    pub materials: Seq<MaterialCountView>,
}

impl View for Good {
    type V = GoodView;

    open spec fn view(&self) -> GoodView {
        GoodView {
            format: self.format@,
            version: self.version,
            source: self.source@,
            characters: views(self.characters@),
            artifacts: views(self.artifacts@),
            weapons: views(self.weapons@),
            materials: views(self.materials@),
        }
    }
}

/// The format tag of the document.
pub open spec fn format_tag() -> Seq<char> {
    seq!['G', 'O', 'O', 'D']
}

/// The source tag of the document.
pub open spec fn source_tag() -> Seq<char> {
    seq!['I', 'r', 'm', 'i', 'n', 's', 'u', 'l']
}

/// The version of the format that the document follows.
pub const GOOD_VERSION: u32 = 2;

/// An ASCII letter or digit.
pub open spec fn is_ascii_alnum(c: char) -> bool {
    ('a' <= c && c <= 'z') || ('A' <= c && c <= 'Z') || ('0' <= c && c <= '9')
}

/// The ASCII upper-case form of `c`; any other character is kept.
pub open spec fn ascii_upper(c: char) -> char {
    if 'a' <= c && c <= 'z' {
        ((c as u32) - 32) as char
    } else {
        c
    }
}

/// The key built from `s` so far, and whether the next kept character is
/// capitalized.
pub open spec fn key_scan(s: Seq<char>) -> (Seq<char>, bool)
    decreases s.len(),
{
    if s.len() == 0 {
        (Seq::empty(), true)
    } else {
        let (out, cap) = key_scan(s.drop_last());
        let c = s.last();
        if is_ascii_alnum(c) {
            (out.push(if cap { ascii_upper(c) } else { c }), false)
        } else if c == ' ' {
            (out, true)
        } else {
            (out, cap)
        }
    }
}

/// The canonical key of a display string: ASCII letters and digits only, the
/// first one and each first one after a space in upper case.
pub open spec fn good_key(s: Seq<char>) -> Seq<char> {
    key_scan(s).0
}

/// Relies on `String::push`: appends one character.
#[verifier::external_body]
fn push_char(s: &mut String, c: char)
    ensures
        final(s)@ == old(s)@.push(c),
{
    s.push(c);
}

/// Converts a display name to its canonical key ("Bow of the Stringless"
/// gives "BowOfTheStringless").
pub fn to_good_key(value: &str) -> (r: String)
    ensures
        r@ == good_key(value@),
{
    let mut result = String::new();
    let mut capitalize_next = true;
    let ghost s = value@;
    for c in it: value.chars()
        invariant
            it.seq() == s,
            (result@, capitalize_next) == key_scan(s.take(it.index() as int)),
    {
        proof {
            assert(s.take(it.index() + 1).drop_last() == s.take(it.index() as int));
        }
        if ('a' <= c && c <= 'z') || ('A' <= c && c <= 'Z') || ('0' <= c && c <= '9') {
            if capitalize_next {
                let u = if 'a' <= c && c <= 'z' {
                    ((c as u8) - 32) as char
                } else {
                    c
                };
                push_char(&mut result, u);
                capitalize_next = false;
            } else {
                push_char(&mut result, c);
            }
        } else if c == ' ' {
            capitalize_next = true;
        }
    }
    proof {
        assert(s.take(s.len() as int) == s);
    }
    result
}

} // verus!
