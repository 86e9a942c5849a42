//! Keyboard layouts offered at the settings prompt.

use vstd::prelude::*;
use crate::text::same_text;

verus! {

/// The keyboard layout chosen at the settings prompt.
#[derive(Clone, Debug, PartialEq, Eq)]
pub enum KBLayout {
    /// Switch to the layout with this code.
    Change(String),
    /// Keep the layout that the bundle ships with.
    Default,
}

/// What one answer at the layout prompt leads to.
#[derive(Clone, Debug, PartialEq, Eq)]
pub enum LayoutPromptStep {
    /// The prompt is over.
    Done(KBLayout),
    /// Show the table of layouts, then ask again.
    ShowList,
    /// The answer names no layout: ask again.
    AskAgain,
}

/// Layout codes with their display names, ordered by code.
pub open spec fn kb_layout_table() -> Seq<(&'static str, &'static str)> {
    seq![
        ("af", "Dari"),
        ("al", "Albanian"),
        ("am", "Armenian"),
        ("ara", "Arabic"),
        ("at", "German (Austria)"),
        ("au", "English (Australia)"),
        ("az", "Azerbaijani"),
        ("ba", "Bosnian"),
        ("bd", "Bangla"),
        ("be", "Belgian"),
        ("bg", "Bulgarian"),
        ("br", "Portuguese (Brazil)"),
        ("brai", "Braille"),
        ("bt", "Dzongkha"),
        ("bw", "Tswana"),
        ("by", "Belarusian"),
        ("ca", "French (Canada)"),
        ("cd", "French (Democratic Republic of the Congo)"),
        ("ch", "German (Switzerland)"),
        ("cm", "English (Cameroon)"),
        ("cn", "Chinese"),
        ("cz", "Czech"),
        ("de", "German"),
        ("dk", "Danish"),
        ("dz", "Berber (Algeria, Latin)"),
        ("ee", "Estonian"),
        ("eg", "Arabic (Egypt)"),
        ("epo", "Esperanto"),
        ("es", "Spanish"),
        ("et", "Amharic"),
        ("fi", "Finnish"),
        ("fo", "Faroese"),
        ("fr", "French"),
        ("gb", "English (UK)"),
        ("ge", "Georgian"),
        ("gh", "English (Ghana)"),
        ("gn", "N'Ko (AZERTY)"),
        ("gr", "Greek"),
        ("hr", "Croatian"),
        ("hu", "Hungarian"),
        ("id", "Indonesian (Latin)"),
        ("ie", "Irish"),
        ("il", "Hebrew"),
        ("in", "Indian"),
        ("iq", "Arabic (Iraq)"),
        ("ir", "Persian"),
        ("is", "Icelandic"),
        ("it", "Italian"),
        ("jp", "Japanese"),
        ("ke", "Swahili (Kenya)"),
        ("kg", "Kyrgyz"),
        ("kh", "Khmer (Cambodia)"),
        ("kr", "Korean"),
        ("kz", "Kazakh"),
        ("la", "Lao"),
        ("latam", "Spanish (Latin American)"),
        ("lk", "Sinhala (phonetic)"),
        ("lt", "Lithuanian"),
        ("lv", "Latvian"),
        ("ma", "Arabic (Morocco)"),
        ("md", "Moldavian"),
        ("me", "Montenegrin"),
        ("mk", "Macedonian"),
        ("ml", "Bambara"),
        ("mm", "Burmese"),
        ("mn", "Mongolian"),
        ("mt", "Maltese"),
        ("mv", "Dhivehi"),
        ("my", "Malay (Jawi, Arabic Keyboard)"),
        ("ng", "English (Nigeria)"),
        ("nl", "Dutch"),
        ("no", "Norwegian"),
        ("np", "Nepali"),
        ("nz", "English (New Zealand)"),
        ("ph", "Filipino"),
        ("pk", "Urdu (Pakistan)"),
        ("pl", "Polish"),
        ("pt", "Portuguese"),
        ("ro", "Romanian"),
        ("rs", "Serbian"),
        ("ru", "Russian"),
        ("se", "Swedish"),
        ("si", "Slovenian"),
        ("sk", "Slovak"),
        ("sn", "Wolof"),
        ("sy", "Arabic (Syria)"),
        ("tg", "French (Togo)"),
        ("th", "Thai"),
        ("tj", "Tajik"),
        ("tm", "Turkmen"),
        ("tr", "Turkish"),
        ("tw", "Taiwanese"),
        ("tz", "Swahili (Tanzania)"),
        ("ua", "Ukrainian"),
        ("us", "English (US)"),
        ("uz", "Uzbek"),
        ("vn", "Vietnamese"),
        ("za", "English (South Africa)"),
    ]
}

/// `code` is one of the offered layout codes.
pub open spec fn is_layout_code(code: Seq<char>) -> bool {
    exists|i: int| 0 <= i < kb_layout_table().len() && (#[trigger] kb_layout_table()[i]).0@ == code
}

/// `a` comes strictly before `b`, comparing character by character.
pub open spec fn text_lt(a: Seq<char>, b: Seq<char>) -> bool
    decreases a.len(),
{
    if a.len() == 0 {
        b.len() > 0
    } else if b.len() == 0 {
        false
    } else if a[0] != b[0] {
        (a[0] as u32) < (b[0] as u32)
    } else {
        text_lt(a.drop_first(), b.drop_first())
    }
}

/// No text comes before itself.
pub proof fn lemma_text_lt_irreflexive(a: Seq<char>)
    ensures
        !text_lt(a, a),
    decreases a.len(),
{
    if a.len() > 0 {
        lemma_text_lt_irreflexive(a.drop_first());
    }
}

/// The order of texts is transitive.
pub proof fn lemma_text_lt_transitive(a: Seq<char>, b: Seq<char>, c: Seq<char>)
    requires
        text_lt(a, b),
        text_lt(b, c),
    ensures
        text_lt(a, c),
    decreases a.len(),
{
    if a.len() > 0 && b.len() > 0 && c.len() > 0 && a[0] == b[0] && b[0] == c[0] {
        lemma_text_lt_transitive(a.drop_first(), b.drop_first(), c.drop_first());
    }
}

/// Codes ordered pairwise when each is before the next.
proof fn lemma_chain_sorted(t: Seq<(&'static str, &'static str)>)
    requires
        forall|k: int| 0 <= k < t.len() - 1 ==> text_lt((#[trigger] t[k]).0@, t[k + 1].0@),
    ensures
        forall|i: int, j: int| 0 <= i < j < t.len() ==> text_lt((#[trigger] t[i]).0@, (#[trigger] t[j]).0@),
    decreases t.len(),
{
    if t.len() > 0 {
        let front = t.drop_last();
        assert forall|k: int| 0 <= k < front.len() - 1 implies text_lt((#[trigger] front[k]).0@, front[k + 1].0@) by {
            assert(front[k] == t[k] && front[k + 1] == t[k + 1]);
        }
        lemma_chain_sorted(front);
        assert forall|i: int, j: int| 0 <= i < j < t.len() implies text_lt((#[trigger] t[i]).0@, (#[trigger] t[j]).0@) by {
            assert(front.len() == t.len() - 1);
            if j < t.len() - 1 {
                assert(front[i] == t[i] && front[j] == t[j]);
            } else if i < j - 1 {
                assert(front[i] == t[i] && front[j - 1] == t[j - 1]);
                lemma_text_lt_transitive(t[i].0@, t[j - 1].0@, t[j].0@);
            }
        }
    }
}

/// The layout codes are strictly ordered, hence pairwise distinct.
pub proof fn lemma_kb_layout_codes_sorted()
    ensures
        forall|i: int, j: int|
            0 <= i < j < kb_layout_table().len() ==> text_lt(
                (#[trigger] kb_layout_table()[i]).0@,
                (#[trigger] kb_layout_table()[j]).0@,
            ),
        forall|i: int, j: int|
            0 <= i < j < kb_layout_table().len() ==> (#[trigger] kb_layout_table()[i]).0@
                != (#[trigger] kb_layout_table()[j]).0@,
{
    let t = kb_layout_table();
    assert(t.len() == 98);
    assert(text_lt(t[0].0@, t[1].0@)) by {
        reveal_strlit("af");
        reveal_strlit("al");
        assert(t[0].0 == "af" && t[1].0 == "al");
        reveal_with_fuel(text_lt, 3);
    }
    assert(text_lt(t[1].0@, t[2].0@)) by {
        reveal_strlit("al");
        reveal_strlit("am");
        assert(t[1].0 == "al" && t[2].0 == "am");
        reveal_with_fuel(text_lt, 3);
    }
    assert(text_lt(t[2].0@, t[3].0@)) by {
        reveal_strlit("am");
        reveal_strlit("ara");
        assert(t[2].0 == "am" && t[3].0 == "ara");
        reveal_with_fuel(text_lt, 3);
    }
    assert(text_lt(t[3].0@, t[4].0@)) by {
        reveal_strlit("ara");
        reveal_strlit("at");
        assert(t[3].0 == "ara" && t[4].0 == "at");
        reveal_with_fuel(text_lt, 3);
    }
    assert(text_lt(t[4].0@, t[5].0@)) by {
        reveal_strlit("at");
        reveal_strlit("au");
        assert(t[4].0 == "at" && t[5].0 == "au");
        reveal_with_fuel(text_lt, 3);
    }
    assert(text_lt(t[5].0@, t[6].0@)) by {
        reveal_strlit("au");
        reveal_strlit("az");
        assert(t[5].0 == "au" && t[6].0 == "az");
        reveal_with_fuel(text_lt, 3);
    }
    assert(text_lt(t[6].0@, t[7].0@)) by {
        reveal_strlit("az");
        reveal_strlit("ba");
        assert(t[6].0 == "az" && t[7].0 == "ba");
        reveal_with_fuel(text_lt, 3);
    }
    assert(text_lt(t[7].0@, t[8].0@)) by {
        reveal_strlit("ba");
        reveal_strlit("bd");
        assert(t[7].0 == "ba" && t[8].0 == "bd");
        reveal_with_fuel(text_lt, 3);
    }
    assert(text_lt(t[8].0@, t[9].0@)) by {
        reveal_strlit("bd");
        reveal_strlit("be");
        assert(t[8].0 == "bd" && t[9].0 == "be");
        reveal_with_fuel(text_lt, 3);
    }
    assert(text_lt(t[9].0@, t[10].0@)) by {
        reveal_strlit("be");
        reveal_strlit("bg");
        assert(t[9].0 == "be" && t[10].0 == "bg");
        reveal_with_fuel(text_lt, 3);
    }
    assert(text_lt(t[10].0@, t[11].0@)) by {
        reveal_strlit("bg");
        reveal_strlit("br");
        assert(t[10].0 == "bg" && t[11].0 == "br");
        reveal_with_fuel(text_lt, 3);
    }
    assert(text_lt(t[11].0@, t[12].0@)) by {
        reveal_strlit("br");
        reveal_strlit("brai");
        assert(t[11].0 == "br" && t[12].0 == "brai");
        reveal_with_fuel(text_lt, 3);
    }
    assert(text_lt(t[12].0@, t[13].0@)) by {
        reveal_strlit("brai");
        reveal_strlit("bt");
        assert(t[12].0 == "brai" && t[13].0 == "bt");
        reveal_with_fuel(text_lt, 3);
    }
    assert(text_lt(t[13].0@, t[14].0@)) by {
        reveal_strlit("bt");
        reveal_strlit("bw");
        assert(t[13].0 == "bt" && t[14].0 == "bw");
        reveal_with_fuel(text_lt, 3);
    }
    assert(text_lt(t[14].0@, t[15].0@)) by {
        reveal_strlit("bw");
        reveal_strlit("by");
        assert(t[14].0 == "bw" && t[15].0 == "by");
        reveal_with_fuel(text_lt, 3);
    }
    assert(text_lt(t[15].0@, t[16].0@)) by {
        reveal_strlit("by");
        reveal_strlit("ca");
        assert(t[15].0 == "by" && t[16].0 == "ca");
        reveal_with_fuel(text_lt, 3);
    }
    assert(text_lt(t[16].0@, t[17].0@)) by {
        reveal_strlit("ca");
        reveal_strlit("cd");
        assert(t[16].0 == "ca" && t[17].0 == "cd");
        reveal_with_fuel(text_lt, 3);
    }
    assert(text_lt(t[17].0@, t[18].0@)) by {
        reveal_strlit("cd");
        reveal_strlit("ch");
        assert(t[17].0 == "cd" && t[18].0 == "ch");
        reveal_with_fuel(text_lt, 3);
    }
    assert(text_lt(t[18].0@, t[19].0@)) by {
        reveal_strlit("ch");
        reveal_strlit("cm");
        assert(t[18].0 == "ch" && t[19].0 == "cm");
        reveal_with_fuel(text_lt, 3);
    }
    assert(text_lt(t[19].0@, t[20].0@)) by {
        reveal_strlit("cm");
        reveal_strlit("cn");
        assert(t[19].0 == "cm" && t[20].0 == "cn");
        reveal_with_fuel(text_lt, 3);
    }
    assert(text_lt(t[20].0@, t[21].0@)) by {
        reveal_strlit("cn");
        reveal_strlit("cz");
        assert(t[20].0 == "cn" && t[21].0 == "cz");
        reveal_with_fuel(text_lt, 3);
    }
    assert(text_lt(t[21].0@, t[22].0@)) by {
        reveal_strlit("cz");
        reveal_strlit("de");
        assert(t[21].0 == "cz" && t[22].0 == "de");
        reveal_with_fuel(text_lt, 3);
    }
    assert(text_lt(t[22].0@, t[23].0@)) by {
        reveal_strlit("de");
        reveal_strlit("dk");
        assert(t[22].0 == "de" && t[23].0 == "dk");
        reveal_with_fuel(text_lt, 3);
    }
    assert(text_lt(t[23].0@, t[24].0@)) by {
        reveal_strlit("dk");
        reveal_strlit("dz");
        assert(t[23].0 == "dk" && t[24].0 == "dz");
        reveal_with_fuel(text_lt, 3);
    }
    assert(text_lt(t[24].0@, t[25].0@)) by {
        reveal_strlit("dz");
        reveal_strlit("ee");
        assert(t[24].0 == "dz" && t[25].0 == "ee");
        reveal_with_fuel(text_lt, 3);
    }
    assert(text_lt(t[25].0@, t[26].0@)) by {
        reveal_strlit("ee");
        reveal_strlit("eg");
        assert(t[25].0 == "ee" && t[26].0 == "eg");
        reveal_with_fuel(text_lt, 3);
    }
    assert(text_lt(t[26].0@, t[27].0@)) by {
        reveal_strlit("eg");
        reveal_strlit("epo");
        assert(t[26].0 == "eg" && t[27].0 == "epo");
        reveal_with_fuel(text_lt, 3);
    }
    assert(text_lt(t[27].0@, t[28].0@)) by {
        reveal_strlit("epo");
        reveal_strlit("es");
        assert(t[27].0 == "epo" && t[28].0 == "es");
        reveal_with_fuel(text_lt, 3);
    }
    assert(text_lt(t[28].0@, t[29].0@)) by {
        reveal_strlit("es");
        reveal_strlit("et");
        assert(t[28].0 == "es" && t[29].0 == "et");
        reveal_with_fuel(text_lt, 3);
    }
    assert(text_lt(t[29].0@, t[30].0@)) by {
        reveal_strlit("et");
        reveal_strlit("fi");
        assert(t[29].0 == "et" && t[30].0 == "fi");
        reveal_with_fuel(text_lt, 3);
    }
    assert(text_lt(t[30].0@, t[31].0@)) by {
        reveal_strlit("fi");
        reveal_strlit("fo");
        assert(t[30].0 == "fi" && t[31].0 == "fo");
        reveal_with_fuel(text_lt, 3);
    }
    assert(text_lt(t[31].0@, t[32].0@)) by {
        reveal_strlit("fo");
        reveal_strlit("fr");
        assert(t[31].0 == "fo" && t[32].0 == "fr");
        reveal_with_fuel(text_lt, 3);
    }
    assert(text_lt(t[32].0@, t[33].0@)) by {
        reveal_strlit("fr");
        reveal_strlit("gb");
        assert(t[32].0 == "fr" && t[33].0 == "gb");
        reveal_with_fuel(text_lt, 3);
    }
    assert(text_lt(t[33].0@, t[34].0@)) by {
        reveal_strlit("gb");
        reveal_strlit("ge");
        assert(t[33].0 == "gb" && t[34].0 == "ge");
        reveal_with_fuel(text_lt, 3);
    }
    assert(text_lt(t[34].0@, t[35].0@)) by {
        reveal_strlit("ge");
        reveal_strlit("gh");
        assert(t[34].0 == "ge" && t[35].0 == "gh");
        reveal_with_fuel(text_lt, 3);
    }
    assert(text_lt(t[35].0@, t[36].0@)) by {
        reveal_strlit("gh");
        reveal_strlit("gn");
        assert(t[35].0 == "gh" && t[36].0 == "gn");
        reveal_with_fuel(text_lt, 3);
    }
    assert(text_lt(t[36].0@, t[37].0@)) by {
        reveal_strlit("gn");
        reveal_strlit("gr");
        assert(t[36].0 == "gn" && t[37].0 == "gr");
        reveal_with_fuel(text_lt, 3);
    }
    assert(text_lt(t[37].0@, t[38].0@)) by {
        reveal_strlit("gr");
        reveal_strlit("hr");
        assert(t[37].0 == "gr" && t[38].0 == "hr");
        reveal_with_fuel(text_lt, 3);
    }
    assert(text_lt(t[38].0@, t[39].0@)) by {
        reveal_strlit("hr");
        reveal_strlit("hu");
        assert(t[38].0 == "hr" && t[39].0 == "hu");
        reveal_with_fuel(text_lt, 3);
    }
    assert(text_lt(t[39].0@, t[40].0@)) by {
        reveal_strlit("hu");
        reveal_strlit("id");
        assert(t[39].0 == "hu" && t[40].0 == "id");
        reveal_with_fuel(text_lt, 3);
    }
    assert(text_lt(t[40].0@, t[41].0@)) by {
        reveal_strlit("id");
        reveal_strlit("ie");
        assert(t[40].0 == "id" && t[41].0 == "ie");
        reveal_with_fuel(text_lt, 3);
    }
    assert(text_lt(t[41].0@, t[42].0@)) by {
        reveal_strlit("ie");
        reveal_strlit("il");
        assert(t[41].0 == "ie" && t[42].0 == "il");
        reveal_with_fuel(text_lt, 3);
    }
    assert(text_lt(t[42].0@, t[43].0@)) by {
        reveal_strlit("il");
        reveal_strlit("in");
        assert(t[42].0 == "il" && t[43].0 == "in");
        reveal_with_fuel(text_lt, 3);
    }
    assert(text_lt(t[43].0@, t[44].0@)) by {
        reveal_strlit("in");
        reveal_strlit("iq");
        assert(t[43].0 == "in" && t[44].0 == "iq");
        reveal_with_fuel(text_lt, 3);
    }
    assert(text_lt(t[44].0@, t[45].0@)) by {
        reveal_strlit("iq");
        reveal_strlit("ir");
        assert(t[44].0 == "iq" && t[45].0 == "ir");
        reveal_with_fuel(text_lt, 3);
    }
    assert(text_lt(t[45].0@, t[46].0@)) by {
        reveal_strlit("ir");
        reveal_strlit("is");
        assert(t[45].0 == "ir" && t[46].0 == "is");
        reveal_with_fuel(text_lt, 3);
    }
    assert(text_lt(t[46].0@, t[47].0@)) by {
        reveal_strlit("is");
        reveal_strlit("it");
        assert(t[46].0 == "is" && t[47].0 == "it");
        reveal_with_fuel(text_lt, 3);
    }
    assert(text_lt(t[47].0@, t[48].0@)) by {
        reveal_strlit("it");
        reveal_strlit("jp");
        assert(t[47].0 == "it" && t[48].0 == "jp");
        reveal_with_fuel(text_lt, 3);
    }
    assert(text_lt(t[48].0@, t[49].0@)) by {
        reveal_strlit("jp");
        reveal_strlit("ke");
        assert(t[48].0 == "jp" && t[49].0 == "ke");
        reveal_with_fuel(text_lt, 3);
    }
    assert(text_lt(t[49].0@, t[50].0@)) by {
        reveal_strlit("ke");
        reveal_strlit("kg");
        assert(t[49].0 == "ke" && t[50].0 == "kg");
        reveal_with_fuel(text_lt, 3);
    }
    assert(text_lt(t[50].0@, t[51].0@)) by {
        reveal_strlit("kg");
        reveal_strlit("kh");
        assert(t[50].0 == "kg" && t[51].0 == "kh");
        reveal_with_fuel(text_lt, 3);
    }
    assert(text_lt(t[51].0@, t[52].0@)) by {
        reveal_strlit("kh");
        reveal_strlit("kr");
        assert(t[51].0 == "kh" && t[52].0 == "kr");
        reveal_with_fuel(text_lt, 3);
    }
    assert(text_lt(t[52].0@, t[53].0@)) by {
        reveal_strlit("kr");
        reveal_strlit("kz");
        assert(t[52].0 == "kr" && t[53].0 == "kz");
        reveal_with_fuel(text_lt, 3);
    }
    assert(text_lt(t[53].0@, t[54].0@)) by {
        reveal_strlit("kz");
        reveal_strlit("la");
        assert(t[53].0 == "kz" && t[54].0 == "la");
        reveal_with_fuel(text_lt, 3);
    }
    assert(text_lt(t[54].0@, t[55].0@)) by {
        reveal_strlit("la");
        reveal_strlit("latam");
        assert(t[54].0 == "la" && t[55].0 == "latam");
        reveal_with_fuel(text_lt, 3);
    }
    assert(text_lt(t[55].0@, t[56].0@)) by {
        reveal_strlit("latam");
        reveal_strlit("lk");
        assert(t[55].0 == "latam" && t[56].0 == "lk");
        reveal_with_fuel(text_lt, 3);
    }
    assert(text_lt(t[56].0@, t[57].0@)) by {
        reveal_strlit("lk");
        reveal_strlit("lt");
        assert(t[56].0 == "lk" && t[57].0 == "lt");
        reveal_with_fuel(text_lt, 3);
    }
    assert(text_lt(t[57].0@, t[58].0@)) by {
        reveal_strlit("lt");
        reveal_strlit("lv");
        assert(t[57].0 == "lt" && t[58].0 == "lv");
        reveal_with_fuel(text_lt, 3);
    }
    assert(text_lt(t[58].0@, t[59].0@)) by {
        reveal_strlit("lv");
        reveal_strlit("ma");
        assert(t[58].0 == "lv" && t[59].0 == "ma");
        reveal_with_fuel(text_lt, 3);
    }
    assert(text_lt(t[59].0@, t[60].0@)) by {
        reveal_strlit("ma");
        reveal_strlit("md");
        assert(t[59].0 == "ma" && t[60].0 == "md");
        reveal_with_fuel(text_lt, 3);
    }
    assert(text_lt(t[60].0@, t[61].0@)) by {
        reveal_strlit("md");
        reveal_strlit("me");
        assert(t[60].0 == "md" && t[61].0 == "me");
        reveal_with_fuel(text_lt, 3);
    }
    assert(text_lt(t[61].0@, t[62].0@)) by {
        reveal_strlit("me");
        reveal_strlit("mk");
        assert(t[61].0 == "me" && t[62].0 == "mk");
        reveal_with_fuel(text_lt, 3);
    }
    assert(text_lt(t[62].0@, t[63].0@)) by {
        reveal_strlit("mk");
        reveal_strlit("ml");
        assert(t[62].0 == "mk" && t[63].0 == "ml");
        reveal_with_fuel(text_lt, 3);
    }
    assert(text_lt(t[63].0@, t[64].0@)) by {
        reveal_strlit("ml");
        reveal_strlit("mm");
        assert(t[63].0 == "ml" && t[64].0 == "mm");
        reveal_with_fuel(text_lt, 3);
    }
    assert(text_lt(t[64].0@, t[65].0@)) by {
        reveal_strlit("mm");
        reveal_strlit("mn");
        assert(t[64].0 == "mm" && t[65].0 == "mn");
        reveal_with_fuel(text_lt, 3);
    }
    assert(text_lt(t[65].0@, t[66].0@)) by {
        reveal_strlit("mn");
        reveal_strlit("mt");
        assert(t[65].0 == "mn" && t[66].0 == "mt");
        reveal_with_fuel(text_lt, 3);
    }
    assert(text_lt(t[66].0@, t[67].0@)) by {
        reveal_strlit("mt");
        reveal_strlit("mv");
        assert(t[66].0 == "mt" && t[67].0 == "mv");
        reveal_with_fuel(text_lt, 3);
    }
    assert(text_lt(t[67].0@, t[68].0@)) by {
        reveal_strlit("mv");
        reveal_strlit("my");
        assert(t[67].0 == "mv" && t[68].0 == "my");
        reveal_with_fuel(text_lt, 3);
    }
    assert(text_lt(t[68].0@, t[69].0@)) by {
        reveal_strlit("my");
        reveal_strlit("ng");
        assert(t[68].0 == "my" && t[69].0 == "ng");
        reveal_with_fuel(text_lt, 3);
    }
    assert(text_lt(t[69].0@, t[70].0@)) by {
        reveal_strlit("ng");
        reveal_strlit("nl");
        assert(t[69].0 == "ng" && t[70].0 == "nl");
        reveal_with_fuel(text_lt, 3);
    }
    assert(text_lt(t[70].0@, t[71].0@)) by {
        reveal_strlit("nl");
        reveal_strlit("no");
        assert(t[70].0 == "nl" && t[71].0 == "no");
        reveal_with_fuel(text_lt, 3);
    }
    assert(text_lt(t[71].0@, t[72].0@)) by {
        reveal_strlit("no");
        reveal_strlit("np");
        assert(t[71].0 == "no" && t[72].0 == "np");
        reveal_with_fuel(text_lt, 3);
    }
    assert(text_lt(t[72].0@, t[73].0@)) by {
        reveal_strlit("np");
        reveal_strlit("nz");
        assert(t[72].0 == "np" && t[73].0 == "nz");
        reveal_with_fuel(text_lt, 3);
    }
    assert(text_lt(t[73].0@, t[74].0@)) by {
        reveal_strlit("nz");
        reveal_strlit("ph");
        assert(t[73].0 == "nz" && t[74].0 == "ph");
        reveal_with_fuel(text_lt, 3);
    }
    assert(text_lt(t[74].0@, t[75].0@)) by {
        reveal_strlit("ph");
        reveal_strlit("pk");
        assert(t[74].0 == "ph" && t[75].0 == "pk");
        reveal_with_fuel(text_lt, 3);
    }
    assert(text_lt(t[75].0@, t[76].0@)) by {
        reveal_strlit("pk");
        reveal_strlit("pl");
        assert(t[75].0 == "pk" && t[76].0 == "pl");
        reveal_with_fuel(text_lt, 3);
    }
    assert(text_lt(t[76].0@, t[77].0@)) by {
        reveal_strlit("pl");
        reveal_strlit("pt");
        assert(t[76].0 == "pl" && t[77].0 == "pt");
        reveal_with_fuel(text_lt, 3);
    }
    assert(text_lt(t[77].0@, t[78].0@)) by {
        reveal_strlit("pt");
        reveal_strlit("ro");
        assert(t[77].0 == "pt" && t[78].0 == "ro");
        reveal_with_fuel(text_lt, 3);
    }
    assert(text_lt(t[78].0@, t[79].0@)) by {
        reveal_strlit("ro");
        reveal_strlit("rs");
        assert(t[78].0 == "ro" && t[79].0 == "rs");
        reveal_with_fuel(text_lt, 3);
    }
    assert(text_lt(t[79].0@, t[80].0@)) by {
        reveal_strlit("rs");
        reveal_strlit("ru");
        assert(t[79].0 == "rs" && t[80].0 == "ru");
        reveal_with_fuel(text_lt, 3);
    }
    assert(text_lt(t[80].0@, t[81].0@)) by {
        reveal_strlit("ru");
        reveal_strlit("se");
        assert(t[80].0 == "ru" && t[81].0 == "se");
        reveal_with_fuel(text_lt, 3);
    }
    assert(text_lt(t[81].0@, t[82].0@)) by {
        reveal_strlit("se");
        reveal_strlit("si");
        assert(t[81].0 == "se" && t[82].0 == "si");
        reveal_with_fuel(text_lt, 3);
    }
    assert(text_lt(t[82].0@, t[83].0@)) by {
        reveal_strlit("si");
        reveal_strlit("sk");
        assert(t[82].0 == "si" && t[83].0 == "sk");
        reveal_with_fuel(text_lt, 3);
    }
    assert(text_lt(t[83].0@, t[84].0@)) by {
        reveal_strlit("sk");
        reveal_strlit("sn");
        assert(t[83].0 == "sk" && t[84].0 == "sn");
        reveal_with_fuel(text_lt, 3);
    }
    assert(text_lt(t[84].0@, t[85].0@)) by {
        reveal_strlit("sn");
        reveal_strlit("sy");
        assert(t[84].0 == "sn" && t[85].0 == "sy");
        reveal_with_fuel(text_lt, 3);
    }
    assert(text_lt(t[85].0@, t[86].0@)) by {
        reveal_strlit("sy");
        reveal_strlit("tg");
        assert(t[85].0 == "sy" && t[86].0 == "tg");
        reveal_with_fuel(text_lt, 3);
    }
    assert(text_lt(t[86].0@, t[87].0@)) by {
        reveal_strlit("tg");
        reveal_strlit("th");
        assert(t[86].0 == "tg" && t[87].0 == "th");
        reveal_with_fuel(text_lt, 3);
    }
    assert(text_lt(t[87].0@, t[88].0@)) by {
        reveal_strlit("th");
        reveal_strlit("tj");
        assert(t[87].0 == "th" && t[88].0 == "tj");
        reveal_with_fuel(text_lt, 3);
    }
    assert(text_lt(t[88].0@, t[89].0@)) by {
        reveal_strlit("tj");
        reveal_strlit("tm");
        assert(t[88].0 == "tj" && t[89].0 == "tm");
        reveal_with_fuel(text_lt, 3);
    }
    assert(text_lt(t[89].0@, t[90].0@)) by {
        reveal_strlit("tm");
        reveal_strlit("tr");
        assert(t[89].0 == "tm" && t[90].0 == "tr");
        reveal_with_fuel(text_lt, 3);
    }
    assert(text_lt(t[90].0@, t[91].0@)) by {
        reveal_strlit("tr");
        reveal_strlit("tw");
        assert(t[90].0 == "tr" && t[91].0 == "tw");
        reveal_with_fuel(text_lt, 3);
    }
    assert(text_lt(t[91].0@, t[92].0@)) by {
        reveal_strlit("tw");
        reveal_strlit("tz");
        assert(t[91].0 == "tw" && t[92].0 == "tz");
        reveal_with_fuel(text_lt, 3);
    }
    assert(text_lt(t[92].0@, t[93].0@)) by {
        reveal_strlit("tz");
        reveal_strlit("ua");
        assert(t[92].0 == "tz" && t[93].0 == "ua");
        reveal_with_fuel(text_lt, 3);
    }
    assert(text_lt(t[93].0@, t[94].0@)) by {
        reveal_strlit("ua");
        reveal_strlit("us");
        assert(t[93].0 == "ua" && t[94].0 == "us");
        reveal_with_fuel(text_lt, 3);
    }
    assert(text_lt(t[94].0@, t[95].0@)) by {
        reveal_strlit("us");
        reveal_strlit("uz");
        assert(t[94].0 == "us" && t[95].0 == "uz");
        reveal_with_fuel(text_lt, 3);
    }
    assert(text_lt(t[95].0@, t[96].0@)) by {
        reveal_strlit("uz");
        reveal_strlit("vn");
        assert(t[95].0 == "uz" && t[96].0 == "vn");
        reveal_with_fuel(text_lt, 3);
    }
    assert(text_lt(t[96].0@, t[97].0@)) by {
        reveal_strlit("vn");
        reveal_strlit("za");
        assert(t[96].0 == "vn" && t[97].0 == "za");
        reveal_with_fuel(text_lt, 3);
    }
    lemma_chain_sorted(t);
    assert forall|i: int, j: int| 0 <= i < j < t.len() implies (#[trigger] t[i]).0@ != (#[trigger] t[j]).0@ by {
        lemma_text_lt_irreflexive(t[i].0@);
    }
}

/// The offered layouts: code and display name, strictly ordered by code,
/// so that no code occurs twice.
pub fn get_kb_layouts() -> (r: Vec<(&'static str, &'static str)>)
    ensures
        r@ == kb_layout_table(),
        forall|i: int, j: int|
            0 <= i < j < r@.len() ==> text_lt((#[trigger] r@[i]).0@, (#[trigger] r@[j]).0@),
        forall|i: int, j: int| 0 <= i < j < r@.len() ==> (#[trigger] r@[i]).0@ != (#[trigger] r@[j]).0@,
{
    let r = vec![
            ("af", "Dari"),
            ("al", "Albanian"),
            ("am", "Armenian"),
            ("ara", "Arabic"),
            ("at", "German (Austria)"),
            ("au", "English (Australia)"),
            ("az", "Azerbaijani"),
            ("ba", "Bosnian"),
            ("bd", "Bangla"),
            ("be", "Belgian"),
            ("bg", "Bulgarian"),
            ("br", "Portuguese (Brazil)"),
            ("brai", "Braille"),
            ("bt", "Dzongkha"),
            ("bw", "Tswana"),
            ("by", "Belarusian"),
            ("ca", "French (Canada)"),
            ("cd", "French (Democratic Republic of the Congo)"),
            ("ch", "German (Switzerland)"),
            ("cm", "English (Cameroon)"),
            ("cn", "Chinese"),
            ("cz", "Czech"),
            ("de", "German"),
            ("dk", "Danish"),
            ("dz", "Berber (Algeria, Latin)"),
            ("ee", "Estonian"),
            ("eg", "Arabic (Egypt)"),
            ("epo", "Esperanto"),
            ("es", "Spanish"),
            ("et", "Amharic"),
            ("fi", "Finnish"),
            ("fo", "Faroese"),
            ("fr", "French"),
            ("gb", "English (UK)"),
            ("ge", "Georgian"),
            ("gh", "English (Ghana)"),
            ("gn", "N'Ko (AZERTY)"),
            ("gr", "Greek"),
            ("hr", "Croatian"),
            ("hu", "Hungarian"),
            ("id", "Indonesian (Latin)"),
            ("ie", "Irish"),
            ("il", "Hebrew"),
            ("in", "Indian"),
            ("iq", "Arabic (Iraq)"),
            ("ir", "Persian"),
            ("is", "Icelandic"),
            ("it", "Italian"),
            ("jp", "Japanese"),
            ("ke", "Swahili (Kenya)"),
            ("kg", "Kyrgyz"),
            ("kh", "Khmer (Cambodia)"),
            ("kr", "Korean"),
            ("kz", "Kazakh"),
            ("la", "Lao"),
            ("latam", "Spanish (Latin American)"),
            ("lk", "Sinhala (phonetic)"),
            ("lt", "Lithuanian"),
            ("lv", "Latvian"),
            ("ma", "Arabic (Morocco)"),
            ("md", "Moldavian"),
            ("me", "Montenegrin"),
            ("mk", "Macedonian"),
            ("ml", "Bambara"),
            ("mm", "Burmese"),
            ("mn", "Mongolian"),
            ("mt", "Maltese"),
            ("mv", "Dhivehi"),
            ("my", "Malay (Jawi, Arabic Keyboard)"),
            ("ng", "English (Nigeria)"),
            ("nl", "Dutch"),
            ("no", "Norwegian"),
            ("np", "Nepali"),
            ("nz", "English (New Zealand)"),
            ("ph", "Filipino"),
            ("pk", "Urdu (Pakistan)"),
            ("pl", "Polish"),
            ("pt", "Portuguese"),
            ("ro", "Romanian"),
            ("rs", "Serbian"),
            ("ru", "Russian"),
            ("se", "Swedish"),
            ("si", "Slovenian"),
            ("sk", "Slovak"),
            ("sn", "Wolof"),
            ("sy", "Arabic (Syria)"),
            ("tg", "French (Togo)"),
            ("th", "Thai"),
            ("tj", "Tajik"),
            ("tm", "Turkmen"),
            ("tr", "Turkish"),
            ("tw", "Taiwanese"),
            ("tz", "Swahili (Tanzania)"),
            ("ua", "Ukrainian"),
            ("us", "English (US)"),
            ("uz", "Uzbek"),
            ("vn", "Vietnamese"),
            ("za", "English (South Africa)"),
    ];
    proof {
        lemma_kb_layout_codes_sorted();
        assert(r@ == kb_layout_table());
    }
    r
}

/// Whether `code` is one of the offered layout codes.
pub fn is_kb_layout_code(code: &str) -> (r: bool)
    ensures
        r == is_layout_code(code@),
{
    let table = get_kb_layouts();
    let mut i: usize = 0;
    while i < table.len()
        invariant
            table@ == kb_layout_table(),
            i <= table.len(),
            forall|j: int| 0 <= j < i ==> (#[trigger] kb_layout_table()[j]).0@ != code@,
        decreases table.len() - i,
    {
        if same_text(table[i].0, code) {
            return true;
        }
        i += 1;
    }
    false
}

/// What one answer at the layout prompt leads to, with text as characters.
pub enum LayoutStepView {
    Keep,
    Change(Seq<char>),
    ShowList,
    AskAgain,
}

impl View for LayoutPromptStep {
    type V = LayoutStepView;

    open spec fn view(&self) -> LayoutStepView {
        match self {
            LayoutPromptStep::Done(KBLayout::Default) => LayoutStepView::Keep,
            LayoutPromptStep::Done(KBLayout::Change(c)) => LayoutStepView::Change(c@),
            LayoutPromptStep::ShowList => LayoutStepView::ShowList,
            LayoutPromptStep::AskAgain => LayoutStepView::AskAgain,
        }
    }
}

/// The meaning of a normalised answer at the layout prompt: `q`/`quit`
/// keeps the default, `l`/`list` asks for the table, a known code ends the
/// prompt with that layout, anything else asks again.
pub open spec fn layout_step(input: Seq<char>) -> LayoutStepView {
    if input == "q"@ || input == "quit"@ {
        LayoutStepView::Keep
    } else if input == "l"@ || input == "list"@ {
        LayoutStepView::ShowList
    } else if is_layout_code(input) {
        LayoutStepView::Change(input)
    } else {
        LayoutStepView::AskAgain
    }
}

/// One round of the layout prompt, on a normalised answer.
pub fn get_kb_layout_code(input: &str) -> (r: LayoutPromptStep)
    ensures
        r@ == layout_step(input@),
{
    if same_text(input, "q") || same_text(input, "quit") {
        LayoutPromptStep::Done(KBLayout::Default)
    } else if same_text(input, "l") || same_text(input, "list") {
        LayoutPromptStep::ShowList
    } else if is_kb_layout_code(input) {
        LayoutPromptStep::Done(KBLayout::Change(input.to_owned()))
    } else {
        LayoutPromptStep::AskAgain
    }
}

} // verus!
