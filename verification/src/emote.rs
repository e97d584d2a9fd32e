//! The reactions under a message, and what each of them stands for.

use vstd::prelude::*;
use vstd::string::StringExecFns;

verus! {

/// What a reaction asks for.
#[derive(Clone, Copy, Debug, PartialEq, Eq, Structural)]
pub enum EmoteAction {
    Number(usize),
    PlayPause,
    Next,
    Prev,
    Join,
    Leave,
    Delete,
    LoopOne,
    LoopAll,
    Nothing,
}

/// The sign for a number up to ten; no sign stands for a larger one.
pub open spec fn number_glyph(n: usize) -> Seq<char> {
    if n == 0 {
        "0️⃣"@
    } else if n == 1 {
        "1️⃣"@
    } else if n == 2 {
        "2️⃣"@
    } else if n == 3 {
        "3️⃣"@
    } else if n == 4 {
        "4️⃣"@
    } else if n == 5 {
        "5️⃣"@
    } else if n == 6 {
        "6️⃣"@
    } else if n == 7 {
        "7️⃣"@
    } else if n == 8 {
        "8️⃣"@
    } else if n == 9 {
        "9️⃣"@
    } else if n == 10 {
        "🔟"@
    } else {
        ""@
    }
}

/// The action that a sign stands for, if it stands for one.
pub open spec fn emote_of(sign: Seq<char>) -> Option<EmoteAction> {
    if sign == "⏯"@ {
        Some(EmoteAction::PlayPause)
    } else if sign == "⏭"@ {
        Some(EmoteAction::Next)
    } else if sign == "⏮"@ {
        Some(EmoteAction::Prev)
    } else if sign == "📥"@ {
        Some(EmoteAction::Join)
    } else if sign == "📤"@ {
        Some(EmoteAction::Leave)
    } else if sign == "❌"@ {
        Some(EmoteAction::Delete)
    } else if sign == "🔂"@ {
        Some(EmoteAction::LoopOne)
    } else if sign == "🔁"@ {
        Some(EmoteAction::LoopAll)
    } else if sign == "無"@ {
        Some(EmoteAction::Nothing)
    } else if sign == "0️⃣"@ {
        Some(EmoteAction::Number(0))
    } else if sign == "1️⃣"@ {
        Some(EmoteAction::Number(1))
    } else if sign == "2️⃣"@ {
        Some(EmoteAction::Number(2))
    } else if sign == "3️⃣"@ {
        Some(EmoteAction::Number(3))
    } else if sign == "4️⃣"@ {
        Some(EmoteAction::Number(4))
    } else if sign == "5️⃣"@ {
        Some(EmoteAction::Number(5))
    } else if sign == "6️⃣"@ {
        Some(EmoteAction::Number(6))
    } else if sign == "7️⃣"@ {
        Some(EmoteAction::Number(7))
    } else if sign == "8️⃣"@ {
        Some(EmoteAction::Number(8))
    } else if sign == "9️⃣"@ {
        Some(EmoteAction::Number(9))
    } else if sign == "🔟"@ {
        Some(EmoteAction::Number(10))
    } else {
        None
    }
}

/// Whether two texts are the same.
pub fn same_text(a: &str, b: &str) -> (r: bool)
    ensures
        r == (a@ == b@),
{
    String::from_str(a) == String::from_str(b)
}

impl EmoteAction {
    /// Whether the action has a sign: every action but a number above ten.
    pub open spec fn has_sign(self) -> bool {
        self matches EmoteAction::Number(n) ==> n <= 10
    }

    /// The sign of an action; an action without a sign has the empty one.
    pub open spec fn glyph(self) -> Seq<char> {
        match self {
            EmoteAction::Number(n) => number_glyph(n),
            EmoteAction::PlayPause => "⏯"@,
            EmoteAction::Next => "⏭"@,
            EmoteAction::Prev => "⏮"@,
            EmoteAction::Join => "📥"@,
            EmoteAction::Leave => "📤"@,
            EmoteAction::Delete => "❌"@,
            EmoteAction::LoopOne => "🔂"@,
            EmoteAction::LoopAll => "🔁"@,
            EmoteAction::Nothing => "無"@,
        }
    }

    /// The sign of an action.
    pub fn unicode(&self) -> (r: &'static str)
        ensures
            r@ == self.glyph(),
    {
        match self {
            EmoteAction::Number(n) => {
                if *n == 0 {
                    "0️⃣"
                } else if *n == 1 {
                    "1️⃣"
                } else if *n == 2 {
                    "2️⃣"
                } else if *n == 3 {
                    "3️⃣"
                } else if *n == 4 {
                    "4️⃣"
                } else if *n == 5 {
                    "5️⃣"
                } else if *n == 6 {
                    "6️⃣"
                } else if *n == 7 {
                    "7️⃣"
                } else if *n == 8 {
                    "8️⃣"
                } else if *n == 9 {
                    "9️⃣"
                } else if *n == 10 {
                    "🔟"
                } else {
                    ""
                }
            },
            EmoteAction::PlayPause => "⏯",
            EmoteAction::Next => "⏭",
            EmoteAction::Prev => "⏮",
            EmoteAction::Join => "📥",
            EmoteAction::Leave => "📤",
            EmoteAction::Delete => "❌",
            EmoteAction::LoopOne => "🔂",
            EmoteAction::LoopAll => "🔁",
            EmoteAction::Nothing => "無",
        }
    }

    /// The action that a sign stands for; a text that is no sign is an
    /// error.
    pub fn try_from(value: &str) -> (r: Result<EmoteAction, ()>)
        ensures
            r == match emote_of(value@) {
                Some(action) => Ok::<EmoteAction, ()>(action),
                None => Err::<EmoteAction, ()>(()),
            },
    {
        if same_text(value, "⏯") {
            Ok(EmoteAction::PlayPause)
        } else if same_text(value, "⏭") {
            Ok(EmoteAction::Next)
        } else if same_text(value, "⏮") {
            Ok(EmoteAction::Prev)
        } else if same_text(value, "📥") {
            Ok(EmoteAction::Join)
        } else if same_text(value, "📤") {
            Ok(EmoteAction::Leave)
        } else if same_text(value, "❌") {
            Ok(EmoteAction::Delete)
        } else if same_text(value, "🔂") {
            Ok(EmoteAction::LoopOne)
        } else if same_text(value, "🔁") {
            Ok(EmoteAction::LoopAll)
        } else if same_text(value, "無") {
            Ok(EmoteAction::Nothing)
        } else {
            let mut n: usize = 0;
            while n <= 10
                invariant
                    n <= 11,
                    value@ != "⏯"@ && value@ != "⏭"@ && value@ != "⏮"@,
                    value@ != "📥"@ && value@ != "📤"@ && value@ != "❌"@,
                    value@ != "🔂"@ && value@ != "🔁"@ && value@ != "無"@,
                    forall|k: usize| k < n ==> number_glyph(k) != value@,
                decreases 11 - n,
            {
                if same_text(value, EmoteAction::Number(n).unicode()) {
                    assert(forall|k: usize| k < n ==> number_glyph(k) != value@);
                    assert(0 < n ==> number_glyph(0) != value@);
                    assert(1 < n ==> number_glyph(1) != value@);
                    assert(2 < n ==> number_glyph(2) != value@);
                    assert(3 < n ==> number_glyph(3) != value@);
                    assert(4 < n ==> number_glyph(4) != value@);
                    assert(5 < n ==> number_glyph(5) != value@);
                    assert(6 < n ==> number_glyph(6) != value@);
                    assert(7 < n ==> number_glyph(7) != value@);
                    assert(8 < n ==> number_glyph(8) != value@);
                    assert(9 < n ==> number_glyph(9) != value@);
                    return Ok(EmoteAction::Number(n));
                }
                n += 1;
            }
            assert(number_glyph(0) != value@ && number_glyph(1) != value@ && number_glyph(2)
                != value@ && number_glyph(3) != value@ && number_glyph(4) != value@
                && number_glyph(5) != value@ && number_glyph(6) != value@ && number_glyph(7)
                != value@ && number_glyph(8) != value@ && number_glyph(9) != value@
                && number_glyph(10) != value@);
            Err(())
        }
    }
}

/// What is known of the signs: each is a text of its own.
proof fn lemma_signs()
    ensures
        "⏯"@.len() > 0,
        "⏭"@.len() > 0,
        "⏮"@.len() > 0,
        "📥"@.len() > 0,
        "📤"@.len() > 0,
        "❌"@.len() > 0,
        "🔂"@.len() > 0,
        "🔁"@.len() > 0,
        "無"@.len() > 0,
        forall|n: usize| n <= 10 ==> (#[trigger] number_glyph(n)).len() > 0,
        forall|a: EmoteAction, b: EmoteAction|
            a.has_sign() && b.has_sign() && a != b ==> (#[trigger] a.glyph())[0] != (
            #[trigger] b.glyph())[0],
{
    reveal_strlit("⏯");
    reveal_strlit("⏭");
    reveal_strlit("⏮");
    reveal_strlit("📥");
    reveal_strlit("📤");
    reveal_strlit("❌");
    reveal_strlit("🔂");
    reveal_strlit("🔁");
    reveal_strlit("無");
    reveal_strlit("0️⃣");
    reveal_strlit("1️⃣");
    reveal_strlit("2️⃣");
    reveal_strlit("3️⃣");
    reveal_strlit("4️⃣");
    reveal_strlit("5️⃣");
    reveal_strlit("6️⃣");
    reveal_strlit("7️⃣");
    reveal_strlit("8️⃣");
    reveal_strlit("9️⃣");
    reveal_strlit("🔟");
}

/// No two actions share a sign.
pub proof fn lemma_signs_differ(a: EmoteAction, b: EmoteAction)
    requires
        a.has_sign(),
        b.has_sign(),
        a.glyph() == b.glyph(),
    ensures
        a == b,
{
    lemma_signs();
}

/// The sign of an action stands for that action: reading a sign undoes
/// writing it.
pub proof fn lemma_sign_round_trip(a: EmoteAction)
    requires
        a.has_sign(),
    ensures
        emote_of(a.glyph()) == Some(a),
{
    lemma_signs();
    match emote_of(a.glyph()) {
        Some(b) => {
            lemma_emote_of_sound(a.glyph());
            lemma_signs_differ(a, b);
        },
        None => {},
    }
}

/// An action that a text stands for has that text as its sign.
pub proof fn lemma_emote_of_sound(sign: Seq<char>)
    ensures
        emote_of(sign) matches Some(action) ==> action.has_sign() && action.glyph() == sign,
{
}

} // verus!
