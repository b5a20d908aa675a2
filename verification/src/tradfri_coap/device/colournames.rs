use vstd::prelude::*;

verus! {

/// The full palette of named colours, each carried on the wire as a
/// six-digit hexadecimal word. An unknown word decodes to the default
/// warm glow rather than failing, as the compact light state does not
/// treat the colour as required.
#[derive(Clone, Copy, PartialEq, Eq, Structural, Debug)]
pub enum ColourName {
    Blue,
    LightBlue,
    SaturatedPurple,
    Lime,
    LightPurple,
    Yellow,
    SaturatedPink,
    DarkPeach,
    SaturatedRed,
    ColdSky,
    Pink,
    Peach,
    WarmAmber,
    LightPink,
    CoolDaylight,
    Candlelight,
    WarmGlow,
    WarmWhite,
    Sunrise,
    CoolWhite,
}

impl ColourName {
    /// The six-digit hexadecimal colour word that carries this colour on the wire.
    pub open spec fn spec_hex(self) -> Seq<char> {
        match self {
            ColourName::Blue => "4a418a"@,
            ColourName::LightBlue => "6c83ba"@,
            ColourName::SaturatedPurple => "8f2686"@,
            ColourName::Lime => "a9d62b"@,
            ColourName::LightPurple => "c984bb"@,
            ColourName::Yellow => "d6e44b"@,
            ColourName::SaturatedPink => "d9337c"@,
            ColourName::DarkPeach => "da5d41"@,
            ColourName::SaturatedRed => "dc4b31"@,
            ColourName::ColdSky => "dcf0f8"@,
            ColourName::Pink => "e491af"@,
            ColourName::Peach => "e57345"@,
            ColourName::WarmAmber => "e78834"@,
            ColourName::LightPink => "e8bedd"@,
            ColourName::CoolDaylight => "eaf6fb"@,
            ColourName::Candlelight => "ebb63e"@,
            ColourName::WarmGlow => "efd275"@,
            ColourName::WarmWhite => "f1e0b5"@,
            ColourName::Sunrise => "f2eccf"@,
            ColourName::CoolWhite => "f5faf6"@,
        }
    }

    pub fn hex(self) -> (r: String)
        ensures
            r@ == self.spec_hex(),
    {
        match self {
            ColourName::Blue => String::from_str("4a418a"),
            ColourName::LightBlue => String::from_str("6c83ba"),
            ColourName::SaturatedPurple => String::from_str("8f2686"),
            ColourName::Lime => String::from_str("a9d62b"),
            ColourName::LightPurple => String::from_str("c984bb"),
            ColourName::Yellow => String::from_str("d6e44b"),
            ColourName::SaturatedPink => String::from_str("d9337c"),
            ColourName::DarkPeach => String::from_str("da5d41"),
            ColourName::SaturatedRed => String::from_str("dc4b31"),
            ColourName::ColdSky => String::from_str("dcf0f8"),
            ColourName::Pink => String::from_str("e491af"),
            ColourName::Peach => String::from_str("e57345"),
            ColourName::WarmAmber => String::from_str("e78834"),
            ColourName::LightPink => String::from_str("e8bedd"),
            ColourName::CoolDaylight => String::from_str("eaf6fb"),
            ColourName::Candlelight => String::from_str("ebb63e"),
            ColourName::WarmGlow => String::from_str("efd275"),
            ColourName::WarmWhite => String::from_str("f1e0b5"),
            ColourName::Sunrise => String::from_str("f2eccf"),
            ColourName::CoolWhite => String::from_str("f5faf6"),
        }
    }

    /// The colour a hexadecimal word names; an unknown word defaults to
    /// the warm glow.
    pub open spec fn spec_from_hex_or_default(s: Seq<char>) -> ColourName {
        if s == "4a418a"@ {
            ColourName::Blue
        } else if s == "6c83ba"@ {
            ColourName::LightBlue
        } else if s == "8f2686"@ {
            ColourName::SaturatedPurple
        } else if s == "a9d62b"@ {
            ColourName::Lime
        } else if s == "c984bb"@ {
            ColourName::LightPurple
        } else if s == "d6e44b"@ {
            ColourName::Yellow
        } else if s == "d9337c"@ {
            ColourName::SaturatedPink
        } else if s == "da5d41"@ {
            ColourName::DarkPeach
        } else if s == "dc4b31"@ {
            ColourName::SaturatedRed
        } else if s == "dcf0f8"@ {
            ColourName::ColdSky
        } else if s == "e491af"@ {
            ColourName::Pink
        } else if s == "e57345"@ {
            ColourName::Peach
        } else if s == "e78834"@ {
            ColourName::WarmAmber
        } else if s == "e8bedd"@ {
            ColourName::LightPink
        } else if s == "eaf6fb"@ {
            ColourName::CoolDaylight
        } else if s == "ebb63e"@ {
            ColourName::Candlelight
        } else if s == "efd275"@ {
            ColourName::WarmGlow
        } else if s == "f1e0b5"@ {
            ColourName::WarmWhite
        } else if s == "f2eccf"@ {
            ColourName::Sunrise
        } else if s == "f5faf6"@ {
            ColourName::CoolWhite
        } else {
            ColourName::WarmGlow
        }
    }

    pub fn from_hex_or_default(s: &String) -> (r: ColourName)
        ensures
            r == Self::spec_from_hex_or_default(s@),
    {
        if *s == String::from_str("4a418a") {
            ColourName::Blue
        } else if *s == String::from_str("6c83ba") {
            ColourName::LightBlue
        } else if *s == String::from_str("8f2686") {
            ColourName::SaturatedPurple
        } else if *s == String::from_str("a9d62b") {
            ColourName::Lime
        } else if *s == String::from_str("c984bb") {
            ColourName::LightPurple
        } else if *s == String::from_str("d6e44b") {
            ColourName::Yellow
        } else if *s == String::from_str("d9337c") {
            ColourName::SaturatedPink
        } else if *s == String::from_str("da5d41") {
            ColourName::DarkPeach
        } else if *s == String::from_str("dc4b31") {
            ColourName::SaturatedRed
        } else if *s == String::from_str("dcf0f8") {
            ColourName::ColdSky
        } else if *s == String::from_str("e491af") {
            ColourName::Pink
        } else if *s == String::from_str("e57345") {
            ColourName::Peach
        } else if *s == String::from_str("e78834") {
            ColourName::WarmAmber
        } else if *s == String::from_str("e8bedd") {
            ColourName::LightPink
        } else if *s == String::from_str("eaf6fb") {
            ColourName::CoolDaylight
        } else if *s == String::from_str("ebb63e") {
            ColourName::Candlelight
        } else if *s == String::from_str("efd275") {
            ColourName::WarmGlow
        } else if *s == String::from_str("f1e0b5") {
            ColourName::WarmWhite
        } else if *s == String::from_str("f2eccf") {
            ColourName::Sunrise
        } else if *s == String::from_str("f5faf6") {
            ColourName::CoolWhite
        } else {
            ColourName::WarmGlow
        }
    }
}

impl Default for ColourName {
    /// The warm glow, the palette's default.
    fn default() -> (r: Self)
        ensures
            r == ColourName::WarmGlow,
    {
        ColourName::WarmGlow
    }
}

/// Every colour of the palette is recovered from its own hexadecimal word.
pub proof fn lemma_colour_name_hex_round_trip(c: ColourName)
    ensures
        ColourName::spec_from_hex_or_default(c.spec_hex()) == c,
{
    reveal_strlit("4a418a");
    reveal_strlit("6c83ba");
    reveal_strlit("8f2686");
    reveal_strlit("a9d62b");
    reveal_strlit("c984bb");
    reveal_strlit("d6e44b");
    reveal_strlit("d9337c");
    reveal_strlit("da5d41");
    reveal_strlit("dc4b31");
    reveal_strlit("dcf0f8");
    reveal_strlit("e491af");
    reveal_strlit("e57345");
    reveal_strlit("e78834");
    reveal_strlit("e8bedd");
    reveal_strlit("eaf6fb");
    reveal_strlit("ebb63e");
    reveal_strlit("efd275");
    reveal_strlit("f1e0b5");
    reveal_strlit("f2eccf");
    reveal_strlit("f5faf6");
    assert("4a418a"@[0] == '4');
    assert("4a418a"@[1] == 'a');
    assert("4a418a"@[2] == '4');
    assert("6c83ba"@[0] == '6');
    assert("6c83ba"@[1] == 'c');
    assert("6c83ba"@[2] == '8');
    assert("8f2686"@[0] == '8');
    assert("8f2686"@[1] == 'f');
    assert("8f2686"@[2] == '2');
    assert("a9d62b"@[0] == 'a');
    assert("a9d62b"@[1] == '9');
    assert("a9d62b"@[2] == 'd');
    assert("c984bb"@[0] == 'c');
    assert("c984bb"@[1] == '9');
    assert("c984bb"@[2] == '8');
    assert("d6e44b"@[0] == 'd');
    assert("d6e44b"@[1] == '6');
    assert("d6e44b"@[2] == 'e');
    assert("d9337c"@[0] == 'd');
    assert("d9337c"@[1] == '9');
    assert("d9337c"@[2] == '3');
    assert("da5d41"@[0] == 'd');
    assert("da5d41"@[1] == 'a');
    assert("da5d41"@[2] == '5');
    assert("dc4b31"@[0] == 'd');
    assert("dc4b31"@[1] == 'c');
    assert("dc4b31"@[2] == '4');
    assert("dcf0f8"@[0] == 'd');
    assert("dcf0f8"@[1] == 'c');
    assert("dcf0f8"@[2] == 'f');
    assert("e491af"@[0] == 'e');
    assert("e491af"@[1] == '4');
    assert("e491af"@[2] == '9');
    assert("e57345"@[0] == 'e');
    assert("e57345"@[1] == '5');
    assert("e57345"@[2] == '7');
    assert("e78834"@[0] == 'e');
    assert("e78834"@[1] == '7');
    assert("e78834"@[2] == '8');
    assert("e8bedd"@[0] == 'e');
    assert("e8bedd"@[1] == '8');
    assert("e8bedd"@[2] == 'b');
    assert("eaf6fb"@[0] == 'e');
    assert("eaf6fb"@[1] == 'a');
    assert("eaf6fb"@[2] == 'f');
    assert("ebb63e"@[0] == 'e');
    assert("ebb63e"@[1] == 'b');
    assert("ebb63e"@[2] == 'b');
    assert("efd275"@[0] == 'e');
    assert("efd275"@[1] == 'f');
    assert("efd275"@[2] == 'd');
    assert("f1e0b5"@[0] == 'f');
    assert("f1e0b5"@[1] == '1');
    assert("f1e0b5"@[2] == 'e');
    assert("f2eccf"@[0] == 'f');
    assert("f2eccf"@[1] == '2');
    assert("f2eccf"@[2] == 'e');
    assert("f5faf6"@[0] == 'f');
    assert("f5faf6"@[1] == '5');
    assert("f5faf6"@[2] == 'f');
}

} // verus!
