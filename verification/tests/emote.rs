use reciprocity::emote::{same_text, EmoteAction};

fn all_with_sign() -> Vec<EmoteAction> {
    let mut all = vec![
        EmoteAction::PlayPause,
        EmoteAction::Next,
        EmoteAction::Prev,
        EmoteAction::Join,
        EmoteAction::Leave,
        EmoteAction::Delete,
        EmoteAction::LoopOne,
        EmoteAction::LoopAll,
        EmoteAction::Nothing,
    ];
    for n in 0..=10 {
        all.push(EmoteAction::Number(n));
    }
    all
}

#[test]
fn signs_of_the_actions() {
    assert_eq!(EmoteAction::PlayPause.unicode(), "⏯");
    assert_eq!(EmoteAction::Next.unicode(), "⏭");
    assert_eq!(EmoteAction::Prev.unicode(), "⏮");
    assert_eq!(EmoteAction::Join.unicode(), "📥");
    assert_eq!(EmoteAction::Leave.unicode(), "📤");
    assert_eq!(EmoteAction::Delete.unicode(), "❌");
    assert_eq!(EmoteAction::LoopOne.unicode(), "🔂");
    assert_eq!(EmoteAction::LoopAll.unicode(), "🔁");
    assert_eq!(EmoteAction::Nothing.unicode(), "無");
    assert_eq!(EmoteAction::Number(0).unicode(), "0️⃣");
    assert_eq!(EmoteAction::Number(3).unicode(), "3️⃣");
    assert_eq!(EmoteAction::Number(9).unicode(), "9️⃣");
    assert_eq!(EmoteAction::Number(10).unicode(), "🔟");
}

#[test]
fn a_number_above_ten_has_no_sign() {
    assert_eq!(EmoteAction::Number(11).unicode(), "");
    assert_eq!(EmoteAction::Number(usize::MAX).unicode(), "");
}

#[test]
fn reading_a_sign_undoes_writing_it() {
    for action in all_with_sign() {
        assert_eq!(EmoteAction::try_from(action.unicode()), Ok(action));
    }
}

#[test]
fn signs_are_all_different() {
    let all = all_with_sign();
    for (i, a) in all.iter().enumerate() {
        for (j, b) in all.iter().enumerate() {
            assert_eq!(a.unicode() == b.unicode(), i == j);
        }
    }
}

#[test]
fn a_text_that_is_no_sign_is_refused() {
    assert_eq!(EmoteAction::try_from(""), Err(()));
    assert_eq!(EmoteAction::try_from("x"), Err(()));
    assert_eq!(EmoteAction::try_from("1"), Err(()));
    assert_eq!(EmoteAction::try_from("⏯⏯"), Err(()));
    assert_eq!(EmoteAction::try_from("👍"), Err(()));
}

#[test]
fn texts_compare_by_their_characters() {
    assert!(same_text("abc", "abc"));
    assert!(!same_text("abc", "abd"));
    assert!(!same_text("abc", "ab"));
    assert!(same_text("", ""));
}
