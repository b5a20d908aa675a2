use vstd::prelude::*;

verus! {

/// The five-member cold/warm glow palette of colour temperatures.
#[derive(Clone, Copy, PartialEq, Eq, Structural, Debug)]
pub enum ColdWarmColor {
    Glow,
    Warm,
    LightWarm,
    LightWhite,
    White,
}

impl ColdWarmColor {
    /// The six-digit hexadecimal colour word that carries this colour on the wire.
    pub open spec fn spec_hex(self) -> Seq<char> {
        match self {
            ColdWarmColor::Glow => "efd275"@,
            ColdWarmColor::Warm => "f1e0b5"@,
            ColdWarmColor::LightWarm => "f2eccf"@,
            ColdWarmColor::LightWhite => "f3f3e3"@,
            ColdWarmColor::White => "f5faf6"@,
        }
    }

    pub fn hex(self) -> (r: String)
        ensures
            r@ == self.spec_hex(),
    {
        match self {
            ColdWarmColor::Glow => String::from_str("efd275"),
            ColdWarmColor::Warm => String::from_str("f1e0b5"),
            ColdWarmColor::LightWarm => String::from_str("f2eccf"),
            ColdWarmColor::LightWhite => String::from_str("f3f3e3"),
            ColdWarmColor::White => String::from_str("f5faf6"),
        }
    }

    /// The colour named by a hexadecimal colour word, if the word is in
    /// this palette.
    pub open spec fn spec_from_hex(s: Seq<char>) -> Option<Self> {
        if s == "efd275"@ {
            Some(ColdWarmColor::Glow)
        } else if s == "f1e0b5"@ {
            Some(ColdWarmColor::Warm)
        } else if s == "f2eccf"@ {
            Some(ColdWarmColor::LightWarm)
        } else if s == "f3f3e3"@ {
            Some(ColdWarmColor::LightWhite)
        } else if s == "f5faf6"@ {
            Some(ColdWarmColor::White)
        } else {
            None
        }
    }

    pub fn from_hex(s: &String) -> (r: Option<Self>)
        ensures
            r == Self::spec_from_hex(s@),
    {
        if *s == String::from_str("efd275") {
            Some(ColdWarmColor::Glow)
        } else if *s == String::from_str("f1e0b5") {
            Some(ColdWarmColor::Warm)
        } else if *s == String::from_str("f2eccf") {
            Some(ColdWarmColor::LightWarm)
        } else if *s == String::from_str("f3f3e3") {
            Some(ColdWarmColor::LightWhite)
        } else if *s == String::from_str("f5faf6") {
            Some(ColdWarmColor::White)
        } else {
            None
        }
    }
}

/// The nineteen-member full colour palette.
#[derive(Clone, Copy, PartialEq, Eq, Structural, Debug)]
pub enum RgbColor {
    Blue,
    LightBlue,
    SaturatedPurple,
    Lime,
    LightPurple,
    Yellow,
    SaturatedPink,
    DarkPeach,
    SaturatedRed,
    ColdSky,
    Pink,
    Peach,
    WarmAmber,
    LightPink,
    CoolDaylight,
    Candlelight,
    WarmGlow,
    WarmWhite,
    Sunrise,
    CoolWhite,
}

impl RgbColor {
    /// The six-digit hexadecimal colour word that carries this colour on the wire.
    pub open spec fn spec_hex(self) -> Seq<char> {
        match self {
            RgbColor::Blue => "4a418a"@,
            RgbColor::LightBlue => "6c83ba"@,
            RgbColor::SaturatedPurple => "8f2686"@,
            RgbColor::Lime => "a9d62b"@,
            RgbColor::LightPurple => "c984bb"@,
            RgbColor::Yellow => "d6e44b"@,
            RgbColor::SaturatedPink => "d9337c"@,
            RgbColor::DarkPeach => "da5d41"@,
            RgbColor::SaturatedRed => "dc4b31"@,
            RgbColor::ColdSky => "dcf0f8"@,
            RgbColor::Pink => "e491af"@,
            RgbColor::Peach => "e57345"@,
            RgbColor::WarmAmber => "e78834"@,
            RgbColor::LightPink => "e8bedd"@,
            RgbColor::CoolDaylight => "eaf6fb"@,
            RgbColor::Candlelight => "ebb63e"@,
            RgbColor::WarmGlow => "efd275"@,
            RgbColor::WarmWhite => "f1e0b5"@,
            RgbColor::Sunrise => "f2eccf"@,
            RgbColor::CoolWhite => "f5faf6"@,
        }
    }

    pub fn hex(self) -> (r: String)
        ensures
            r@ == self.spec_hex(),
    {
        match self {
            RgbColor::Blue => String::from_str("4a418a"),
            RgbColor::LightBlue => String::from_str("6c83ba"),
            RgbColor::SaturatedPurple => String::from_str("8f2686"),
            RgbColor::Lime => String::from_str("a9d62b"),
            RgbColor::LightPurple => String::from_str("c984bb"),
            RgbColor::Yellow => String::from_str("d6e44b"),
            RgbColor::SaturatedPink => String::from_str("d9337c"),
            RgbColor::DarkPeach => String::from_str("da5d41"),
            RgbColor::SaturatedRed => String::from_str("dc4b31"),
            RgbColor::ColdSky => String::from_str("dcf0f8"),
            RgbColor::Pink => String::from_str("e491af"),
            RgbColor::Peach => String::from_str("e57345"),
            RgbColor::WarmAmber => String::from_str("e78834"),
            RgbColor::LightPink => String::from_str("e8bedd"),
            RgbColor::CoolDaylight => String::from_str("eaf6fb"),
            RgbColor::Candlelight => String::from_str("ebb63e"),
            RgbColor::WarmGlow => String::from_str("efd275"),
            RgbColor::WarmWhite => String::from_str("f1e0b5"),
            RgbColor::Sunrise => String::from_str("f2eccf"),
            RgbColor::CoolWhite => String::from_str("f5faf6"),
        }
    }

    /// The colour named by a hexadecimal colour word, if the word is in
    /// this palette.
    pub open spec fn spec_from_hex(s: Seq<char>) -> Option<Self> {
        if s == "4a418a"@ {
            Some(RgbColor::Blue)
        } else if s == "6c83ba"@ {
            Some(RgbColor::LightBlue)
        } else if s == "8f2686"@ {
            Some(RgbColor::SaturatedPurple)
        } else if s == "a9d62b"@ {
            Some(RgbColor::Lime)
        } else if s == "c984bb"@ {
            Some(RgbColor::LightPurple)
        } else if s == "d6e44b"@ {
            Some(RgbColor::Yellow)
        } else if s == "d9337c"@ {
            Some(RgbColor::SaturatedPink)
        } else if s == "da5d41"@ {
            Some(RgbColor::DarkPeach)
        } else if s == "dc4b31"@ {
            Some(RgbColor::SaturatedRed)
        } else if s == "dcf0f8"@ {
            Some(RgbColor::ColdSky)
        } else if s == "e491af"@ {
            Some(RgbColor::Pink)
        } else if s == "e57345"@ {
            Some(RgbColor::Peach)
        } else if s == "e78834"@ {
            Some(RgbColor::WarmAmber)
        } else if s == "e8bedd"@ {
            Some(RgbColor::LightPink)
        } else if s == "eaf6fb"@ {
            Some(RgbColor::CoolDaylight)
        } else if s == "ebb63e"@ {
            Some(RgbColor::Candlelight)
        } else if s == "efd275"@ {
            Some(RgbColor::WarmGlow)
        } else if s == "f1e0b5"@ {
            Some(RgbColor::WarmWhite)
        } else if s == "f2eccf"@ {
            Some(RgbColor::Sunrise)
        } else if s == "f5faf6"@ {
            Some(RgbColor::CoolWhite)
        } else {
            None
        }
    }

    pub fn from_hex(s: &String) -> (r: Option<Self>)
        ensures
            r == Self::spec_from_hex(s@),
    {
        if *s == String::from_str("4a418a") {
            Some(RgbColor::Blue)
        } else if *s == String::from_str("6c83ba") {
            Some(RgbColor::LightBlue)
        } else if *s == String::from_str("8f2686") {
            Some(RgbColor::SaturatedPurple)
        } else if *s == String::from_str("a9d62b") {
            Some(RgbColor::Lime)
        } else if *s == String::from_str("c984bb") {
            Some(RgbColor::LightPurple)
        } else if *s == String::from_str("d6e44b") {
            Some(RgbColor::Yellow)
        } else if *s == String::from_str("d9337c") {
            Some(RgbColor::SaturatedPink)
        } else if *s == String::from_str("da5d41") {
            Some(RgbColor::DarkPeach)
        } else if *s == String::from_str("dc4b31") {
            Some(RgbColor::SaturatedRed)
        } else if *s == String::from_str("dcf0f8") {
            Some(RgbColor::ColdSky)
        } else if *s == String::from_str("e491af") {
            Some(RgbColor::Pink)
        } else if *s == String::from_str("e57345") {
            Some(RgbColor::Peach)
        } else if *s == String::from_str("e78834") {
            Some(RgbColor::WarmAmber)
        } else if *s == String::from_str("e8bedd") {
            Some(RgbColor::LightPink)
        } else if *s == String::from_str("eaf6fb") {
            Some(RgbColor::CoolDaylight)
        } else if *s == String::from_str("ebb63e") {
            Some(RgbColor::Candlelight)
        } else if *s == String::from_str("efd275") {
            Some(RgbColor::WarmGlow)
        } else if *s == String::from_str("f1e0b5") {
            Some(RgbColor::WarmWhite)
        } else if *s == String::from_str("f2eccf") {
            Some(RgbColor::Sunrise)
        } else if *s == String::from_str("f5faf6") {
            Some(RgbColor::CoolWhite)
        } else {
            None
        }
    }
}

/// Every colour of the palette is recovered from its own hexadecimal word.
pub proof fn lemma_cold_warm_hex_round_trip(c: ColdWarmColor)
    ensures
        ColdWarmColor::spec_from_hex(c.spec_hex()) == Some(c),
{
    reveal_strlit("efd275");
    reveal_strlit("f1e0b5");
    reveal_strlit("f2eccf");
    reveal_strlit("f3f3e3");
    reveal_strlit("f5faf6");
    assert("efd275"@[0] == 'e');
    assert("efd275"@[1] == 'f');
    assert("efd275"@[2] == 'd');
    assert("f1e0b5"@[0] == 'f');
    assert("f1e0b5"@[1] == '1');
    assert("f1e0b5"@[2] == 'e');
    assert("f2eccf"@[0] == 'f');
    assert("f2eccf"@[1] == '2');
    assert("f2eccf"@[2] == 'e');
    assert("f3f3e3"@[0] == 'f');
    assert("f3f3e3"@[1] == '3');
    assert("f3f3e3"@[2] == 'f');
    assert("f5faf6"@[0] == 'f');
    assert("f5faf6"@[1] == '5');
    assert("f5faf6"@[2] == 'f');
}

/// Every colour of the palette is recovered from its own hexadecimal word.
pub proof fn lemma_rgb_hex_round_trip(c: RgbColor)
    ensures
        RgbColor::spec_from_hex(c.spec_hex()) == Some(c),
{
    reveal_strlit("4a418a");
    reveal_strlit("6c83ba");
    reveal_strlit("8f2686");
    reveal_strlit("a9d62b");
    reveal_strlit("c984bb");
    reveal_strlit("d6e44b");
    reveal_strlit("d9337c");
    reveal_strlit("da5d41");
    reveal_strlit("dc4b31");
    reveal_strlit("dcf0f8");
    reveal_strlit("e491af");
    reveal_strlit("e57345");
    reveal_strlit("e78834");
    reveal_strlit("e8bedd");
    reveal_strlit("eaf6fb");
    reveal_strlit("ebb63e");
    reveal_strlit("efd275");
    reveal_strlit("f1e0b5");
    reveal_strlit("f2eccf");
    reveal_strlit("f5faf6");
    assert("4a418a"@[0] == '4');
    assert("4a418a"@[1] == 'a');
    assert("4a418a"@[2] == '4');
    assert("6c83ba"@[0] == '6');
    assert("6c83ba"@[1] == 'c');
    assert("6c83ba"@[2] == '8');
    assert("8f2686"@[0] == '8');
    assert("8f2686"@[1] == 'f');
    assert("8f2686"@[2] == '2');
    assert("a9d62b"@[0] == 'a');
    assert("a9d62b"@[1] == '9');
    assert("a9d62b"@[2] == 'd');
    assert("c984bb"@[0] == 'c');
    assert("c984bb"@[1] == '9');
    assert("c984bb"@[2] == '8');
    assert("d6e44b"@[0] == 'd');
    assert("d6e44b"@[1] == '6');
    assert("d6e44b"@[2] == 'e');
    assert("d9337c"@[0] == 'd');
    assert("d9337c"@[1] == '9');
    assert("d9337c"@[2] == '3');
    assert("da5d41"@[0] == 'd');
    assert("da5d41"@[1] == 'a');
    assert("da5d41"@[2] == '5');
    assert("dc4b31"@[0] == 'd');
    assert("dc4b31"@[1] == 'c');
    assert("dc4b31"@[2] == '4');
    assert("dcf0f8"@[0] == 'd');
    assert("dcf0f8"@[1] == 'c');
    assert("dcf0f8"@[2] == 'f');
    assert("e491af"@[0] == 'e');
    assert("e491af"@[1] == '4');
    assert("e491af"@[2] == '9');
    assert("e57345"@[0] == 'e');
    assert("e57345"@[1] == '5');
    assert("e57345"@[2] == '7');
    assert("e78834"@[0] == 'e');
    assert("e78834"@[1] == '7');
    assert("e78834"@[2] == '8');
    assert("e8bedd"@[0] == 'e');
    assert("e8bedd"@[1] == '8');
    assert("e8bedd"@[2] == 'b');
    assert("eaf6fb"@[0] == 'e');
    assert("eaf6fb"@[1] == 'a');
    assert("eaf6fb"@[2] == 'f');
    assert("ebb63e"@[0] == 'e');
    assert("ebb63e"@[1] == 'b');
    assert("ebb63e"@[2] == 'b');
    assert("efd275"@[0] == 'e');
    assert("efd275"@[1] == 'f');
    assert("efd275"@[2] == 'd');
    assert("f1e0b5"@[0] == 'f');
    assert("f1e0b5"@[1] == '1');
    assert("f1e0b5"@[2] == 'e');
    assert("f2eccf"@[0] == 'f');
    assert("f2eccf"@[1] == '2');
    assert("f2eccf"@[2] == 'e');
    assert("f5faf6"@[0] == 'f');
    assert("f5faf6"@[1] == '5');
    assert("f5faf6"@[2] == 'f');
}

} // verus!
