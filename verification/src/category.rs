//! The table that names the category of a title.

use vstd::prelude::*;

verus! {

/// Whether the table has a label for this category.
pub open spec fn is_known_category(category: u32) -> bool {
    ||| category == 0x0000_0001
    ||| category == 0x0000_0007
    ||| category == 0x0001_0000
    ||| category == 0x0001_0001
    ||| category == 0x0001_0002
    ||| category == 0x0007_0002
    ||| category == 0x0001_0004
    ||| category == 0x0001_0005
    ||| category == 0x0001_0008
    ||| category == 0x0007_0008
}

/// The label of a category: its entry in the table, or `Error` where the
/// table has none.
pub open spec fn category_label_of(category: u32) -> Seq<char> {
    if category == 0x0000_0001 {
        "SYSTEM ESSENTIAL"@
    } else if category == 0x0000_0007 {
        "vWII ESSENTIAL"@
    } else if category == 0x0001_0000 {
        "DISC-BASED GAME"@
    } else if category == 0x0001_0001 {
        "DOWNLOADED CHANNEL"@
    } else if category == 0x0001_0002 {
        "SYSTEM CHANNEL"@
    } else if category == 0x0007_0002 {
        "vWII SYSTEM CHANNEL"@
    } else if category == 0x0001_0004 {
        "GAME CHANNEL"@
    } else if category == 0x0001_0005 {
        "GAME DLC"@
    } else if category == 0x0001_0008 {
        "HIDDEN CHANNEL"@
    } else if category == 0x0007_0008 {
        "vWII HIDDEN"@
    } else {
        "Error"@
    }
}

/// The labels that the table holds.
pub open spec fn known_labels() -> Set<Seq<char>> {
    set![
        "SYSTEM ESSENTIAL"@,
        "vWII ESSENTIAL"@,
        "DISC-BASED GAME"@,
        "DOWNLOADED CHANNEL"@,
        "SYSTEM CHANNEL"@,
        "vWII SYSTEM CHANNEL"@,
        "GAME CHANNEL"@,
        "GAME DLC"@,
        "HIDDEN CHANNEL"@,
        "vWII HIDDEN"@,
    ]
}

/// Width of the column that a label is shown in.
pub const LABEL_WIDTH: usize = 19;

/// Looks a category up in the table.
pub fn category_label(category: u32) -> (label: &'static str)
    ensures
        label@ == category_label_of(category),
{
    match category {
        0x0000_0001 => "SYSTEM ESSENTIAL",
        0x0000_0007 => "vWII ESSENTIAL",
        0x0001_0000 => "DISC-BASED GAME",
        0x0001_0001 => "DOWNLOADED CHANNEL",
        0x0001_0002 => "SYSTEM CHANNEL",
        0x0007_0002 => "vWII SYSTEM CHANNEL",
        0x0001_0004 => "GAME CHANNEL",
        0x0001_0005 => "GAME DLC",
        0x0001_0008 => "HIDDEN CHANNEL",
        0x0007_0008 => "vWII HIDDEN",
        _ => "Error",
    }
}

/// Every category has a label: one of the table's ten for a known category,
/// `Error` for any other.
pub proof fn lemma_category_label_total(category: u32)
    ensures
        is_known_category(category) ==> known_labels().contains(category_label_of(category)),
        !is_known_category(category) ==> category_label_of(category) == "Error"@,
        !known_labels().contains("Error"@),
{
    reveal_strlit("SYSTEM ESSENTIAL");
    reveal_strlit("vWII ESSENTIAL");
    reveal_strlit("DISC-BASED GAME");
    reveal_strlit("DOWNLOADED CHANNEL");
    reveal_strlit("SYSTEM CHANNEL");
    reveal_strlit("vWII SYSTEM CHANNEL");
    reveal_strlit("GAME CHANNEL");
    reveal_strlit("GAME DLC");
    reveal_strlit("HIDDEN CHANNEL");
    reveal_strlit("vWII HIDDEN");
    reveal_strlit("Error");
    assert("Error"@.len() == 5);
    assert forall|label: Seq<char>| known_labels().contains(label) implies label.len() >= 8 by {}
}

/// No label is wider than the column it is shown in.
pub proof fn lemma_label_fits_column(category: u32)
    ensures
        1 <= category_label_of(category).len() <= LABEL_WIDTH,
{
    reveal_strlit("SYSTEM ESSENTIAL");
    reveal_strlit("vWII ESSENTIAL");
    reveal_strlit("DISC-BASED GAME");
    reveal_strlit("DOWNLOADED CHANNEL");
    reveal_strlit("SYSTEM CHANNEL");
    reveal_strlit("vWII SYSTEM CHANNEL");
    reveal_strlit("GAME CHANNEL");
    reveal_strlit("GAME DLC");
    reveal_strlit("HIDDEN CHANNEL");
    reveal_strlit("vWII HIDDEN");
    reveal_strlit("Error");
}

} // verus!
