use vstd::prelude::*;
use vstd::string::StringExecFns;

verus! {

/// One window, as the window manager reports it.
#[derive(Debug)]
pub struct YabaiWindow {
    pub id: u32,
    pub app: String,
    pub title: String,
}

/// One line of the launcher's list.
#[derive(Debug)]
pub struct WindowItem {
    pub title: String,
    pub uid: String,
    pub subtitle: String,
    pub icon_file: String,
    pub arg: String,
}

/// What a line of the list says.
pub ghost struct ItemView {
    pub title: Seq<char>,
    pub uid: Seq<char>,
    pub subtitle: Seq<char>,
    pub icon_file: Seq<char>,
    pub arg: Seq<char>,
}

impl View for WindowItem {
    type V = ItemView;

    open spec fn view(&self) -> ItemView {
        ItemView {
            title: self.title@,
            uid: self.uid@,
            subtitle: self.subtitle@,
            icon_file: self.icon_file@,
            arg: self.arg@,
        }
    }
}

/// The text that `str::trim` leaves of a text: the text without the white
/// space at its two ends.
pub uninterp spec fn trimmed(text: Seq<char>) -> Seq<char>;

/// Calls `str::trim`. Trusted: the result depends on the text alone.
#[verifier::external_body]
fn trim<'a>(text: &'a str) -> (short: &'a str)
    ensures
        short@ == trimmed(text@),
{
    text.trim()
}

/// The text of one decimal digit.
pub open spec fn digit_text(digit: int) -> Seq<char> {
    if digit == 0 {
        "0"@
    } else if digit == 1 {
        "1"@
    } else if digit == 2 {
        "2"@
    } else if digit == 3 {
        "3"@
    } else if digit == 4 {
        "4"@
    } else if digit == 5 {
        "5"@
    } else if digit == 6 {
        "6"@
    } else if digit == 7 {
        "7"@
    } else if digit == 8 {
        "8"@
    } else {
        "9"@
    }
}

/// A number in decimal, without leading zeros.
pub open spec fn decimal_text(n: nat) -> Seq<char>
    decreases n,
{
    if n < 10 {
        digit_text(n as int)
    } else {
        decimal_text(n / 10) + digit_text((n % 10) as int)
    }
}

fn digit(d: u32) -> (text: &'static str)
    requires
        d < 10,
    ensures
        text@ == digit_text(d as int),
{
    if d == 0 {
        "0"
    } else if d == 1 {
        "1"
    } else if d == 2 {
        "2"
    } else if d == 3 {
        "3"
    } else if d == 4 {
        "4"
    } else if d == 5 {
        "5"
    } else if d == 6 {
        "6"
    } else if d == 7 {
        "7"
    } else if d == 8 {
        "8"
    } else {
        "9"
    }
}

/// Writes a number in decimal.
pub fn decimal(n: u32) -> (text: String)
    ensures
        text@ == decimal_text(n as nat),
    decreases n,
{
    if n < 10 {
        String::from_str(digit(n))
    } else {
        let mut text = decimal(n / 10);
        text.append(digit(n % 10));
        text
    }
}

/// The title of a window's line: the application and the window's own
/// title, each without the white space at its ends.
pub open spec fn title_text(app: Seq<char>, title: Seq<char>) -> Seq<char> {
    trimmed(app) + " - "@ + trimmed(title)
}

/// The line that stands for a window whose application lives at `path`.
pub open spec fn item_of(window: YabaiWindow, path: Seq<char>) -> ItemView {
    ItemView {
        title: title_text(window.app@, window.title@),
        uid: title_text(window.app@, window.title@),
        subtitle: trimmed(window.app@),
        icon_file: path,
        arg: decimal_text(window.id as nat),
    }
}

/// The line for a window, from the texts that it shows as they are.
pub fn item_from_parts(id: u32, app: &str, title: &str, path: &str) -> (item: WindowItem)
    ensures
        item@ == (ItemView {
            title: app@ + " - "@ + title@,
            uid: app@ + " - "@ + title@,
            subtitle: app@,
            icon_file: path@,
            arg: decimal_text(id as nat),
        }),
{
    let mut joined = String::from_str(app);
    joined.append(" - ");
    joined.append(title);
    WindowItem {
        uid: joined.clone(),
        title: joined,
        subtitle: String::from_str(app),
        icon_file: String::from_str(path),
        arg: decimal(id),
    }
}

pub fn window_item(window: &YabaiWindow, path: &str) -> (item: WindowItem)
    ensures
        item@ == item_of(*window, path@),
{
    item_from_parts(window.id, trim(window.app.as_str()), trim(window.title.as_str()), path)
}

/// The lines for a list of windows: one for each window whose path is
/// known, in the order of the windows; the others are left out.
pub open spec fn items_of(resolved: Seq<(YabaiWindow, Option<String>)>) -> Seq<ItemView>
    decreases resolved.len(),
{
    if resolved.len() == 0 {
        Seq::empty()
    } else {
        let before = items_of(resolved.drop_last());
        match resolved.last().1 {
            Some(path) => before.push(item_of(resolved.last().0, path@)),
            None => before,
        }
    }
}

/// What a list of lines says.
pub open spec fn views_of(items: Seq<WindowItem>) -> Seq<ItemView> {
    items.map_values(|item: WindowItem| item@)
}

pub fn window_items(resolved: &Vec<(YabaiWindow, Option<String>)>) -> (items: Vec<WindowItem>)
    ensures
        views_of(items@) == items_of(resolved@),
{
    let mut items: Vec<WindowItem> = Vec::new();
    let mut i: usize = 0;
    while i < resolved.len()
        invariant
            i <= resolved.len(),
            views_of(items@) == items_of(resolved@.take(i as int)),
        decreases resolved.len() - i,
    {
        proof {
            assert(resolved@.take(i + 1).drop_last() =~= resolved@.take(i as int));
        }
        match &resolved[i].1 {
            Some(path) => {
                items.push(window_item(&resolved[i].0, path.as_str()));
            },
            None => {},
        }
        i += 1;
    }
    proof {
        assert(resolved@.take(i as int) =~= resolved@);
    }
    items
}

} // verus!
