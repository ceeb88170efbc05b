//! The paginated in-game rulebook: nine pages of text, each line kept to at
//! most 58 characters to fit the help box.

use vstd::prelude::*;

verus! {

/// Number of pages of the rulebook.
pub const PAGE_COUNT: usize = 9;

/// One page of the rulebook.
pub struct Page {
    pub title: &'static str,
    pub lines: Vec<&'static str>,
}

/// The text of a page's lines.
pub open spec fn lines_view(lines: Seq<&'static str>) -> Seq<Seq<char>> {
    lines.map_values(|l: &'static str| l@)
}

/// The page shown for a requested index: the index, or the last page when
/// the index is past the end.
pub open spec fn shown_page(index: usize) -> int {
    if index < PAGE_COUNT { index as int } else { PAGE_COUNT - 1 }
}

/// The title of page `i`.
pub open spec fn page_title(i: int) -> Seq<char> {
    if i == 0 {
        "The Goal"@
    } else if i == 1 {
        "The Cards"@
    } else if i == 2 {
        "Fighting"@
    } else if i == 3 {
        "Weapon Wear"@
    } else if i == 4 {
        "Potions & Rooms"@
    } else if i == 5 {
        "Avoiding a Room"@
    } else if i == 6 {
        "Win, Lose, Score"@
    } else if i == 7 {
        "Weapon Rule  (t)"@
    } else {
        "Controls"@
    }
}

/// The lines of page `i`.
pub open spec fn page_text(i: int) -> Seq<Seq<char>> {
    if i == 0 {
        seq![
            "Scoundrel is a solo dungeon-crawl card game."@,
            "The 44-card deck IS the dungeon. You face it"@,
            "one room at a time, card by card."@,
            ""@,
            "You start at 20 HP — also your maximum."@,
            "Clear the entire deck to WIN."@,
            "If HP falls to 0, you LOSE."@,
            ""@,
            "The more HP you keep, the higher your score."@,
        ]
    } else if i == 1 {
        seq![
            "44 cards: a standard deck minus the red"@,
            "face cards (J/Q/K of ♥ and ♦) and both"@,
            "red aces."@,
            ""@,
            "  ♠ Spades   monsters   values 2-14"@,
            "  ♣ Clubs    monsters   values 2-14"@,
            "  ♦ Diamonds weapons    values 2-10"@,
            "  ♥ Hearts   potions    values 2-10"@,
            ""@,
            "Face cards: J=11  Q=12  K=13  A=14."@,
        ]
    } else if i == 2 {
        seq![
            "Every ♠ / ♣ monster must be fought."@,
            ""@,
            "Bare-handed: lose HP equal to its value."@,
            ""@,
            "With a weapon (♦) equipped:"@,
            "   damage = max(0, monster − weapon)"@,
            "So a ♦8 blade vs a ♠5 monster costs 0 HP."@,
            "The slain monster tucks under the weapon."@,
            ""@,
            "You may ALWAYS choose to fight bare-handed."@,
        ]
    } else if i == 3 {
        seq![
            "A weapon weakens each time it kills."@,
            "After a kill it may only face WEAKER"@,
            "monsters than its last slain (STRICT rule)."@,
            ""@,
            "Example: ♦9 weapon, STRICT rule"@,
            "  Slay ♠13 → now capped below 13"@,
            "  Slay ♣10 → ok (10 < 13), capped below 10"@,
            "  Face ♠10 → blade REFUSED (10 is not < 10)"@,
            "         so fight this one bare-handed."@,
            "The tucked pile shows the last slain value."@,
        ]
    } else if i == 4 {
        seq![
            "A room is 4 face-up cards."@,
            "You must resolve 3 of them; the 4th stays"@,
            "and the room refills to 4 next turn."@,
            ""@,
            "♥ Potions heal by their value (HP ≤ 20)."@,
            "Only the FIRST potion drunk each room"@,
            "has any effect — extra ♥ that room are"@,
            "wasted."@,
            ""@,
            "So choose which potion to drink first."@,
        ]
    } else if i == 5 {
        seq![
            "Not every room is worth the fight."@,
            ""@,
            "Avoid (a): put all 4 cards on the BOTTOM"@,
            "of the deck, then deal 4 fresh cards."@,
            ""@,
            "Two limits:"@,
            "  • You cannot avoid two rooms in a row."@,
            "  • You may only avoid BEFORE playing any"@,
            "    card from the current room."@,
        ]
    } else if i == 6 {
        seq![
            "WIN by clearing the whole deck."@,
            "   Score = your remaining HP."@,
            "   Bonus: at full 20 HP, if the very last"@,
            "   card is a potion, score = 20 + its value."@,
            ""@,
            "LOSE if HP reaches 0."@,
            "   Score = HP minus the total value of"@,
            "   every monster still left in the dungeon"@,
            "   (a negative number)."@,
        ]
    } else if i == 7 {
        seq![
            "Two weapon-wear rules exist:"@,
            "STRICT: next monster must be <  last slain."@,
            "EQUAL : next monster must be ≤  last slain."@,
            ""@,
            "EQUAL is gentler — a blade may re-slay a"@,
            "monster of the SAME value, so weapons last"@,
            "longer and rooms play out differently."@,
            ""@,
            "Press t to flip the rule AND replay the"@,
            "same deck, to compare both strategies."@,
        ]
    } else {
        seq![
            "arrows / h l    select a card"@,
            "Enter or Space  smart-use selected card"@,
            "f               fight with your blade"@,
            "b               fight bare-handed"@,
            "a               avoid the room"@,
            "n               new game"@,
            "r               retry the same seed"@,
            "t               flip weapon rule + replay"@,
            "?               open / close this help"@,
            "q               quit"@,
        ]
    }
}

/// The page to show for `index` (clamped to the last page).
pub fn page(index: usize) -> (p: Page)
    ensures
        p.title@ == page_title(shown_page(index)),
        lines_view(p.lines@) == page_text(shown_page(index)),
{
    let idx = if index < PAGE_COUNT { index } else { PAGE_COUNT - 1 };
    let p = match idx {
        0 => Page {
            title: "The Goal",
            lines: vec![
                "Scoundrel is a solo dungeon-crawl card game.",
                "The 44-card deck IS the dungeon. You face it",
                "one room at a time, card by card.",
                "",
                "You start at 20 HP — also your maximum.",
                "Clear the entire deck to WIN.",
                "If HP falls to 0, you LOSE.",
                "",
                "The more HP you keep, the higher your score.",
            ],
        },
        1 => Page {
            title: "The Cards",
            lines: vec![
                "44 cards: a standard deck minus the red",
                "face cards (J/Q/K of ♥ and ♦) and both",
                "red aces.",
                "",
                "  ♠ Spades   monsters   values 2-14",
                "  ♣ Clubs    monsters   values 2-14",
                "  ♦ Diamonds weapons    values 2-10",
                "  ♥ Hearts   potions    values 2-10",
                "",
                "Face cards: J=11  Q=12  K=13  A=14.",
            ],
        },
        2 => Page {
            title: "Fighting",
            lines: vec![
                "Every ♠ / ♣ monster must be fought.",
                "",
                "Bare-handed: lose HP equal to its value.",
                "",
                "With a weapon (♦) equipped:",
                "   damage = max(0, monster − weapon)",
                "So a ♦8 blade vs a ♠5 monster costs 0 HP.",
                "The slain monster tucks under the weapon.",
                "",
                "You may ALWAYS choose to fight bare-handed.",
            ],
        },
        3 => Page {
            title: "Weapon Wear",
            lines: vec![
                "A weapon weakens each time it kills.",
                "After a kill it may only face WEAKER",
                "monsters than its last slain (STRICT rule).",
                "",
                "Example: ♦9 weapon, STRICT rule",
                "  Slay ♠13 → now capped below 13",
                "  Slay ♣10 → ok (10 < 13), capped below 10",
                "  Face ♠10 → blade REFUSED (10 is not < 10)",
                "         so fight this one bare-handed.",
                "The tucked pile shows the last slain value.",
            ],
        },
        4 => Page {
            title: "Potions & Rooms",
            lines: vec![
                "A room is 4 face-up cards.",
                "You must resolve 3 of them; the 4th stays",
                "and the room refills to 4 next turn.",
                "",
                "♥ Potions heal by their value (HP ≤ 20).",
                "Only the FIRST potion drunk each room",
                "has any effect — extra ♥ that room are",
                "wasted.",
                "",
                "So choose which potion to drink first.",
            ],
        },
        5 => Page {
            title: "Avoiding a Room",
            lines: vec![
                "Not every room is worth the fight.",
                "",
                "Avoid (a): put all 4 cards on the BOTTOM",
                "of the deck, then deal 4 fresh cards.",
                "",
                "Two limits:",
                "  • You cannot avoid two rooms in a row.",
                "  • You may only avoid BEFORE playing any",
                "    card from the current room.",
            ],
        },
        6 => Page {
            title: "Win, Lose, Score",
            lines: vec![
                "WIN by clearing the whole deck.",
                "   Score = your remaining HP.",
                "   Bonus: at full 20 HP, if the very last",
                "   card is a potion, score = 20 + its value.",
                "",
                "LOSE if HP reaches 0.",
                "   Score = HP minus the total value of",
                "   every monster still left in the dungeon",
                "   (a negative number).",
            ],
        },
        7 => Page {
            title: "Weapon Rule  (t)",
            lines: vec![
                "Two weapon-wear rules exist:",
                "STRICT: next monster must be <  last slain.",
                "EQUAL : next monster must be ≤  last slain.",
                "",
                "EQUAL is gentler — a blade may re-slay a",
                "monster of the SAME value, so weapons last",
                "longer and rooms play out differently.",
                "",
                "Press t to flip the rule AND replay the",
                "same deck, to compare both strategies.",
            ],
        },
        _ => Page {
            title: "Controls",
            lines: vec![
                "arrows / h l    select a card",
                "Enter or Space  smart-use selected card",
                "f               fight with your blade",
                "b               fight bare-handed",
                "a               avoid the room",
                "n               new game",
                "r               retry the same seed",
                "t               flip weapon rule + replay",
                "?               open / close this help",
                "q               quit",
            ],
        },
    };
    assert(lines_view(p.lines@) =~= page_text(shown_page(index)));
    p
}

} // verus!
