//! How monitors are named, identified and chosen for the wallpaper.

use vstd::prelude::*;
use vstd::string::*;

use crate::text::{decimal, lemma_decimal_characters, lemma_decimal_is_injective, signed_decimal, unsigned_decimal};

verus! {

/// The physical position and size of a monitor.
#[derive(Clone, Copy, Debug, PartialEq, Eq)]
pub struct MonitorBounds {
    pub x: i32,
    pub y: i32,
    pub width: u32,
    pub height: u32,
}

/// The stable identifier of a monitor: its name, position and size.
pub open spec fn monitor_id_text(name: Option<Seq<char>>, x: int, y: int, width: int, height: int) -> Seq<
    char,
> {
    let label = match name {
        Some(text) => text,
        None => "monitor"@,
    };
    label + ":"@ + decimal(x) + ":"@ + decimal(y) + ":"@ + decimal(width) + "x"@ + decimal(height)
}

/// The coordinates part of a monitor identifier, after the name and its
/// separating colon.
spec fn coordinates_text(x: int, y: int, width: int, height: int) -> Seq<char> {
    decimal(x) + (seq![':'] + (decimal(y) + (seq![':'] + (decimal(width) + (seq!['x'] + decimal(
        height,
    ))))))
}

/// Two texts that each start with a part free of `separator`, followed by
/// the separator, are equal only when those parts and what follows are.
proof fn lemma_split_at_first_separator(
    a: Seq<char>,
    r: Seq<char>,
    b: Seq<char>,
    s: Seq<char>,
    separator: char,
)
    requires
        a + (seq![separator] + r) == b + (seq![separator] + s),
        forall|i: int| 0 <= i < a.len() ==> a[i] != separator,
        forall|i: int| 0 <= i < b.len() ==> b[i] != separator,
    ensures
        a == b,
        r == s,
{
    let left = a + (seq![separator] + r);
    let right = b + (seq![separator] + s);
    if a.len() < b.len() {
        assert(left[a.len() as int] == separator);
        assert(right[a.len() as int] == b[a.len() as int]);
    } else if b.len() < a.len() {
        assert(right[b.len() as int] == separator);
        assert(left[b.len() as int] == a[b.len() as int]);
    } else {
        assert(a =~= left.subrange(0, a.len() as int));
        assert(b =~= right.subrange(0, b.len() as int));
        assert(r =~= left.subrange(a.len() as int + 1, left.len() as int));
        assert(s =~= right.subrange(b.len() as int + 1, right.len() as int));
    }
}

proof fn lemma_decimal_has_no_separator(n: int)
    ensures
        forall|i: int| 0 <= i < decimal(n).len() ==> #[trigger] decimal(n)[i] != ':' && decimal(n)[i]
            != 'x',
{
    lemma_decimal_characters(n);
}

/// The name part of a monitor identifier, with its separating colon.
spec fn name_text(name: Option<Seq<char>>) -> Seq<char> {
    let label = match name {
        Some(text) => text,
        None => "monitor"@,
    };
    label + seq![':']
}

proof fn lemma_monitor_id_parts(name: Option<Seq<char>>, x: int, y: int, width: int, height: int)
    ensures
        monitor_id_text(name, x, y, width, height) == name_text(name) + coordinates_text(
            x,
            y,
            width,
            height,
        ),
{
    reveal_strlit(":");
    reveal_strlit("x");
    assert(monitor_id_text(name, x, y, width, height) =~= name_text(name) + coordinates_text(
        x,
        y,
        width,
        height,
    ));
}

proof fn lemma_common_start_cancels(head: Seq<char>, r: Seq<char>, s: Seq<char>)
    requires
        head + r == head + s,
    ensures
        r == s,
{
    assert(r =~= (head + r).subrange(head.len() as int, (head + r).len() as int));
    assert(s =~= (head + s).subrange(head.len() as int, (head + s).len() as int));
}

proof fn lemma_coordinates_are_distinct(
    x1: int,
    y1: int,
    width1: int,
    height1: int,
    x2: int,
    y2: int,
    width2: int,
    height2: int,
)
    requires
        coordinates_text(x1, y1, width1, height1) == coordinates_text(x2, y2, width2, height2),
    ensures
        x1 == x2,
        y1 == y2,
        width1 == width2,
        height1 == height2,
{
    lemma_decimal_has_no_separator(x1);
    lemma_decimal_has_no_separator(x2);
    lemma_split_at_first_separator(
        decimal(x1),
        decimal(y1) + (seq![':'] + (decimal(width1) + (seq!['x'] + decimal(height1)))),
        decimal(x2),
        decimal(y2) + (seq![':'] + (decimal(width2) + (seq!['x'] + decimal(height2)))),
        ':',
    );
    lemma_decimal_has_no_separator(y1);
    lemma_decimal_has_no_separator(y2);
    lemma_split_at_first_separator(
        decimal(y1),
        decimal(width1) + (seq!['x'] + decimal(height1)),
        decimal(y2),
        decimal(width2) + (seq!['x'] + decimal(height2)),
        ':',
    );
    lemma_decimal_has_no_separator(width1);
    lemma_decimal_has_no_separator(width2);
    lemma_split_at_first_separator(
        decimal(width1),
        decimal(height1),
        decimal(width2),
        decimal(height2),
        'x',
    );
    lemma_decimal_is_injective(x1, x2);
    lemma_decimal_is_injective(y1, y2);
    lemma_decimal_is_injective(width1, width2);
    lemma_decimal_is_injective(height1, height2);
}

/// A monitor identifier reads, in this order: the name (or `monitor` for an
/// unnamed one), a colon, the horizontal position, a colon, then the vertical
/// position, and ends with a colon, the width, `x` and the height.
pub proof fn lemma_monitor_id_layout(name: Option<Seq<char>>, x: int, y: int, width: int, height: int)
    ensures
        ({
            let label = match name {
                Some(text) => text,
                None => "monitor"@,
            };
            let id = monitor_id_text(name, x, y, width, height);
            let head = label + ":"@ + decimal(x) + ":"@;
            let tail = ":"@ + decimal(width) + "x"@ + decimal(height);
            &&& id.len() == head.len() + decimal(y).len() + tail.len()
            &&& id.subrange(0, head.len() as int) == head
            &&& id.subrange(head.len() as int, (head.len() + decimal(y).len()) as int) == decimal(y)
            &&& id.subrange((head.len() + decimal(y).len()) as int, id.len() as int) == tail
        }),
{
    let label = match name {
        Some(text) => text,
        None => "monitor"@,
    };
    let id = monitor_id_text(name, x, y, width, height);
    let head = label + ":"@ + decimal(x) + ":"@;
    let tail = ":"@ + decimal(width) + "x"@ + decimal(height);
    assert(id =~= head + decimal(y) + tail);
    assert((head + decimal(y) + tail).subrange(0, head.len() as int) =~= head);
    assert((head + decimal(y) + tail).subrange(head.len() as int, (head.len() + decimal(y).len()) as int)
        =~= decimal(y));
    assert((head + decimal(y) + tail).subrange((head.len() + decimal(y).len()) as int, id.len() as int)
        =~= tail);
}

/// Monitors with the same name share an identifier only when their position
/// and size are equal too: each of x, y, width and height, sign included,
/// changes the identifier, so a monitor placed above the primary one (negative
/// y) is told apart from one placed as far below it.
pub proof fn lemma_monitor_ids_tell_monitors_apart(
    name: Option<Seq<char>>,
    x1: int,
    y1: int,
    width1: int,
    height1: int,
    x2: int,
    y2: int,
    width2: int,
    height2: int,
)
    requires
        monitor_id_text(name, x1, y1, width1, height1) == monitor_id_text(
            name,
            x2,
            y2,
            width2,
            height2,
        ),
    ensures
        x1 == x2,
        y1 == y2,
        width1 == width2,
        height1 == height2,
{
    lemma_monitor_id_parts(name, x1, y1, width1, height1);
    lemma_monitor_id_parts(name, x2, y2, width2, height2);
    lemma_common_start_cancels(
        name_text(name),
        coordinates_text(x1, y1, width1, height1),
        coordinates_text(x2, y2, width2, height2),
    );
    lemma_coordinates_are_distinct(x1, y1, width1, height1, x2, y2, width2, height2);
}

pub fn monitor_id(name: Option<&str>, x: i32, y: i32, width: u32, height: u32) -> (r: String)
    ensures
        r@ == monitor_id_text(
            match name {
                Some(text) => Some(text@),
                None => None,
            },
            x as int,
            y as int,
            width as int,
            height as int,
        ),
{
    let mut id = match name {
        Some(text) => String::from_str(text),
        None => String::from_str("monitor"),
    };
    id.append(":");
    id.append(signed_decimal(x as i64).as_str());
    id.append(":");
    id.append(signed_decimal(y as i64).as_str());
    id.append(":");
    id.append(signed_decimal(width as i64).as_str());
    id.append("x");
    id.append(signed_decimal(height as i64).as_str());
    id
}

/// The name shown for a monitor: its own, or its position in the list
/// counted from one.
pub fn monitor_name(name: Option<&str>, index: usize) -> (r: String)
    requires
        index < usize::MAX,
    ensures
        r@ == match name {
            Some(text) => text@,
            None => "Ekran "@ + decimal(index + 1),
        },
{
    match name {
        Some(text) => String::from_str(text),
        None => {
            let label = String::from_str("Ekran ");
            let position: usize = index + 1;
            label.concat(unsigned_decimal(position as u64).as_str())
        },
    }
}

/// The first position in `ids` that holds `wanted`.
pub open spec fn is_first_index_of(ids: Seq<String>, wanted: Seq<char>, index: int) -> bool {
    &&& 0 <= index < ids.len()
    &&& ids[index]@ == wanted
    &&& forall|k: int| 0 <= k < index ==> (#[trigger] ids[k])@ != wanted
}

/// The position of the first monitor with the given identifier.
pub fn find_monitor(ids: &Vec<String>, wanted: &str) -> (r: Option<usize>)
    ensures
        match r {
            Some(index) => is_first_index_of(ids@, wanted@, index as int),
            None => forall|k: int| 0 <= k < ids@.len() ==> (#[trigger] ids@[k])@ != wanted@,
        },
{
    let target = String::from_str(wanted);
    let mut i: usize = 0;
    while i < ids.len()
        invariant
            i <= ids@.len(),
            target@ == wanted@,
            forall|k: int| 0 <= k < i ==> (#[trigger] ids@[k])@ != wanted@,
        decreases ids.len() - i,
    {
        if ids[i] == target {
            return Some(i);
        }
        i = i + 1;
    }
    None
}

/// The monitor a widget is sized for: the one it names, else the primary
/// one, else the first one; none when there is no monitor.
pub fn target_monitor(ids: &Vec<String>, is_primary: &Vec<bool>, wanted: Option<&str>) -> (r:
    Option<usize>)
    requires
        ids@.len() == is_primary@.len(),
    ensures
        match r {
            Some(index) => {
                ||| (wanted matches Some(id) && is_first_index_of(ids@, id@, index as int))
                ||| ((wanted matches Some(id) ==> forall|k: int|
                    0 <= k < ids@.len() ==> (#[trigger] ids@[k])@ != id@) && 0 <= index
                    < is_primary@.len() && is_primary@[index as int] && forall|k: int|
                    0 <= k < index ==> !(#[trigger] is_primary@[k]))
                ||| ((wanted matches Some(id) ==> forall|k: int|
                    0 <= k < ids@.len() ==> (#[trigger] ids@[k])@ != id@) && (forall|k: int|
                    0 <= k < is_primary@.len() ==> !(#[trigger] is_primary@[k])) && index == 0
                    && ids@.len() > 0)
            },
            None => ids@.len() == 0,
        },
{
    let found = match wanted {
        Some(id) => find_monitor(ids, id),
        None => None,
    };
    if let Some(index) = found {
        return Some(index);
    }
    assert(wanted matches Some(id) ==> forall|k: int|
        0 <= k < ids@.len() ==> (#[trigger] ids@[k])@ != id@);
    let mut i: usize = 0;
    while i < is_primary.len()
        invariant
            i <= is_primary@.len(),
            ids@.len() == is_primary@.len(),
            wanted matches Some(id) ==> forall|k: int|
                0 <= k < ids@.len() ==> (#[trigger] ids@[k])@ != id@,
            forall|k: int| 0 <= k < i ==> !(#[trigger] is_primary@[k]),
        decreases is_primary.len() - i,
    {
        if is_primary[i] {
            return Some(i);
        }
        i = i + 1;
    }
    if ids.len() > 0 {
        Some(0)
    } else {
        None
    }
}

/// The monitor the wallpaper is placed on.
#[derive(Clone, Copy, Debug, PartialEq, Eq, Structural)]
pub enum MonitorChoice {
    /// The monitor at this position of the list.
    Listed(usize),
    /// The system's primary monitor.
    Primary,
}

/// Chooses the wallpaper's monitor: the listed one with the selected
/// identifier, else the primary monitor when the system names one, else the
/// first listed; none when there is no monitor at all.
pub fn choose_monitor(ids: &Vec<String>, selected_id: Option<&str>, primary_is_known: bool) -> (r:
    Option<MonitorChoice>)
    ensures
        match r {
            Some(MonitorChoice::Listed(index)) => {
                ||| (selected_id matches Some(id) && is_first_index_of(ids@, id@, index as int))
                ||| ((selected_id matches Some(id) ==> forall|k: int|
                    0 <= k < ids@.len() ==> (#[trigger] ids@[k])@ != id@) && !primary_is_known
                    && index == 0 && ids@.len() > 0)
            },
            Some(MonitorChoice::Primary) => primary_is_known && (selected_id matches Some(id)
                ==> forall|k: int| 0 <= k < ids@.len() ==> (#[trigger] ids@[k])@ != id@),
            None => !primary_is_known && ids@.len() == 0,
        },
{
    let found = match selected_id {
        Some(id) => find_monitor(ids, id),
        None => None,
    };
    if let Some(index) = found {
        return Some(MonitorChoice::Listed(index));
    }
    if primary_is_known {
        Some(MonitorChoice::Primary)
    } else if ids.len() > 0 {
        Some(MonitorChoice::Listed(0))
    } else {
        None
    }
}

/// The outer position that puts a window's inner corner on `target`, given
/// where its inner corner and outer corner are now: the outer position moved
/// by the gap between target and inner position; none when that does not fit
/// a physical coordinate.
pub fn compensated_position(outer: i32, target: i32, inner: i32) -> (r: Option<i32>)
    ensures
        match r {
            Some(position) => position == outer + target - inner,
            None => !(i32::MIN <= outer + target - inner <= i32::MAX),
        },
{
    let wide = outer as i64 + target as i64 - inner as i64;
    if wide < i32::MIN as i64 || wide > i32::MAX as i64 {
        None
    } else {
        Some(wide as i32)
    }
}

} // verus!
