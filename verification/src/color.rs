use vstd::prelude::*;

use crate::text::{concat2, decimal, decimal_string, str_eq};

verus! {

/// A colour theme: a name and eight `#rrggbb` colour strings.
pub struct ThemeColors {
    pub name: String,
    pub work: String,
    pub short_break: String,
    pub long_break: String,
    pub pause: String,
    pub bg: String,
    pub surface: String,
    pub window: String,
    pub text: String,
}

/// The text of each field of a theme.
pub struct ThemeView {
    pub name: Seq<char>,
    pub work: Seq<char>,
    pub short_break: Seq<char>,
    pub long_break: Seq<char>,
    pub pause: Seq<char>,
    pub bg: Seq<char>,
    pub surface: Seq<char>,
    pub window: Seq<char>,
    pub text: Seq<char>,
}

impl View for ThemeColors {
    type V = ThemeView;

    open spec fn view(&self) -> ThemeView {
        ThemeView {
            name: self.name@,
            work: self.work@,
            short_break: self.short_break@,
            long_break: self.long_break@,
            pause: self.pause@,
            bg: self.bg@,
            surface: self.surface@,
            window: self.window@,
            text: self.text@,
        }
    }
}

impl Clone for ThemeColors {
    fn clone(&self) -> (r: Self)
        ensures
            r == *self,
    {
        ThemeColors {
            name: self.name.clone(),
            work: self.work.clone(),
            short_break: self.short_break.clone(),
            long_break: self.long_break.clone(),
            pause: self.pause.clone(),
            bg: self.bg.clone(),
            surface: self.surface.clone(),
            window: self.window.clone(),
            text: self.text.clone(),
        }
    }
}

/// A theme view made of nine strings, in field order.
pub open spec fn theme_view(
    name: &str,
    work: &str,
    short_break: &str,
    long_break: &str,
    pause: &str,
    bg: &str,
    surface: &str,
    window: &str,
    text: &str,
) -> ThemeView {
    ThemeView {
        name: name@,
        work: work@,
        short_break: short_break@,
        long_break: long_break@,
        pause: pause@,
        bg: bg@,
        surface: surface@,
        window: window@,
        text: text@,
    }
}

fn theme_of(
    name: &str,
    work: &str,
    short_break: &str,
    long_break: &str,
    pause: &str,
    bg: &str,
    surface: &str,
    window: &str,
    text: &str,
) -> (r: ThemeColors)
    ensures
        r@ == theme_view(name, work, short_break, long_break, pause, bg, surface, window, text),
{
    ThemeColors {
        name: String::from_str(name),
        work: String::from_str(work),
        short_break: String::from_str(short_break),
        long_break: String::from_str(long_break),
        pause: String::from_str(pause),
        bg: String::from_str(bg),
        surface: String::from_str(surface),
        window: String::from_str(window),
        text: String::from_str(text),
    }
}

/// The colours of a theme with no stored colours (and an empty name).
pub open spec fn default_theme_view() -> ThemeView {
    theme_view("", "#e53e3e", "#38a169", "#3182ce", "#718096", "#f5f5f7", "#ffffff", "#fafafa", "#1d1d1f")
}

/// The three built-in themes `A`, `B` and `E`, light or dark; any other key gives light `A`.
pub open spec fn builtin_view(key: Seq<char>, dark: bool) -> ThemeView {

    if key == "A"@ && !dark {
        theme_view("预设颜色1", "#e53e3e", "#38a169", "#3182ce", "#718096", "#f5f5f7", "#ffffff", "#fafafa", "#1d1d1f")
    }
    else if key == "A"@ && dark {
        theme_view("预设颜色1", "#c53030", "#38a169", "#3182ce", "#4a5568", "#1a202c", "#232b3b", "#202938", "#f7fafc")
    }
    else if key == "B"@ && !dark {
        theme_view("预设颜色2", "#c5554e", "#589e72", "#5486b4", "#888e96", "#f5f5f7", "#ffffff", "#fafafa", "#1d1d1f")
    }
    else if key == "B"@ && dark {
        theme_view("预设颜色2", "#9b443e", "#487c5c", "#446b8f", "#575c64", "#1a202c", "#232b3b", "#202938", "#f7fafc")
    }
    else if key == "E"@ && !dark {
        theme_view("预设颜色3", "#b85450", "#61a880", "#5c87b2", "#787878", "#f5f5f7", "#ffffff", "#fafafa", "#1d1d1f")
    }
    else if key == "E"@ && dark {
        theme_view("预设颜色3", "#944340", "#4e8867", "#4a6e91", "#5c5c5c", "#1a202c", "#232b3b", "#202938", "#f7fafc")
    }
 else {
        theme_view("预设颜色1", "#e53e3e", "#38a169", "#3182ce", "#718096", "#f5f5f7", "#ffffff", "#fafafa", "#1d1d1f")
    }
}


/// Colour schemes 3 to 8, light or dark, whose window colour is their background colour; any
/// other index gives light scheme 3.
pub open spec fn scheme_view(index: int, dark: bool) -> ThemeView {

    if index == 3 && !dark {
        theme_view("方案3｜浅青灰底", "#E16036", "#2EC4B6", "#1D4ED8", "#9AA3AD", "#D8E8EF", "#E2F0F6", "#D8E8EF", "#123039")
    }
    else if index == 3 && dark {
        theme_view("方案3｜浅青灰底", "#FB923C", "#2DD4BF", "#3B82F6", "#87929E", "#1A252B", "#22333B", "#1A252B", "#E8F2F6")
    }
    else if index == 4 && !dark {
        theme_view("方案4｜奶油暖米色", "#E63946", "#7FB069", "#4A6FA5", "#A89F91", "#EAE3DA", "#F5EFE6", "#EAE3DA", "#3A322B")
    }
    else if index == 4 && dark {
        theme_view("方案4｜奶油暖米色", "#FF6B6B", "#9CD37A", "#7FA6D6", "#8A847C", "#221F1D", "#2B2724", "#221F1D", "#F3EDE6")
    }
    else if index == 5 && !dark {
        theme_view("方案5｜杏仁暖米色", "#C14953", "#8FAE86", "#5D7A99", "#9E9688", "#E8DFD0", "#F3EBDD", "#E8DFD0", "#3B332A")
    }
    else if index == 5 && dark {
        theme_view("方案5｜杏仁暖米色", "#FF847C", "#B6D2A7", "#8AA7C7", "#7F776D", "#201D1A", "#292521", "#201D1A", "#F1EAE1")
    }
    else if index == 6 && !dark {
        theme_view("方案6｜草木护眼绿", "#556B2F", "#7BA05B", "#6F8FAF", "#9E9587", "#DDE4D7", "#E8EDE2", "#DDE4D7", "#2C3327")
    }
    else if index == 6 && dark {
        theme_view("方案6｜草木护眼绿", "#B6CD79", "#D0E6A5", "#A7BED3", "#877F74", "#1D231B", "#242B22", "#1D231B", "#ECF2E6")
    }
    else if index == 7 && !dark {
        theme_view("方案7｜原木暖棕", "#A64B3D", "#8FA478", "#6F9198", "#A19585", "#E4DBCD", "#EFE7DA", "#E4DBCD", "#382F26")
    }
    else if index == 7 && dark {
        theme_view("方案7｜原木暖棕", "#E08A78", "#B8CBA2", "#A5C4CB", "#8A7F72", "#221D1A", "#2B2420", "#221D1A", "#F0E8DF")
    }
    else if index == 8 && !dark {
        theme_view("方案8｜雾蓝灰护眼", "#4F6358", "#6B9080", "#738CA6", "#9AA3AD", "#D9DEE4", "#E4E8EC", "#D9DEE4", "#2A3138")
    }
    else if index == 8 && dark {
        theme_view("方案8｜雾蓝灰护眼", "#B6CDC0", "#A5D1BE", "#B6C7DB", "#87929E", "#181D23", "#20262D", "#181D23", "#E6ECF2")
    }
 else {
        theme_view("方案3｜浅青灰底", "#E16036", "#2EC4B6", "#1D4ED8", "#9AA3AD", "#D8E8EF", "#E2F0F6", "#D8E8EF", "#123039")
    }
}


impl Default for ThemeColors {
    fn default() -> (r: Self)
        ensures
            r@ == default_theme_view(),
    {
        theme_of("", "#e53e3e", "#38a169", "#3182ce", "#718096", "#f5f5f7", "#ffffff", "#fafafa", "#1d1d1f")
    }
}

impl ThemeColors {
    /// A new custom theme with the default colours, named after its one-based position.
    pub fn custom_default(index: usize) -> (r: Self)
        requires
            index < usize::MAX,
        ensures
            r@ == (ThemeView { name: "自定义"@ + decimal((index + 1) as nat), ..default_theme_view() }),
    {
        let mut t = ThemeColors::default();
        t.name = concat2("自定义", decimal_string((index + 1) as u64).as_str());
        t
    }

    pub fn builtin(key: &str, dark: bool) -> (r: ThemeColors)
        ensures
            r@ == builtin_view(key@, dark),
    {

        if str_eq(key, "A") && !dark {
            theme_of("预设颜色1", "#e53e3e", "#38a169", "#3182ce", "#718096", "#f5f5f7", "#ffffff", "#fafafa", "#1d1d1f")
        } else if str_eq(key, "A") && dark {
            theme_of("预设颜色1", "#c53030", "#38a169", "#3182ce", "#4a5568", "#1a202c", "#232b3b", "#202938", "#f7fafc")
        } else if str_eq(key, "B") && !dark {
            theme_of("预设颜色2", "#c5554e", "#589e72", "#5486b4", "#888e96", "#f5f5f7", "#ffffff", "#fafafa", "#1d1d1f")
        } else if str_eq(key, "B") && dark {
            theme_of("预设颜色2", "#9b443e", "#487c5c", "#446b8f", "#575c64", "#1a202c", "#232b3b", "#202938", "#f7fafc")
        } else if str_eq(key, "E") && !dark {
            theme_of("预设颜色3", "#b85450", "#61a880", "#5c87b2", "#787878", "#f5f5f7", "#ffffff", "#fafafa", "#1d1d1f")
        } else if str_eq(key, "E") && dark {
            theme_of("预设颜色3", "#944340", "#4e8867", "#4a6e91", "#5c5c5c", "#1a202c", "#232b3b", "#202938", "#f7fafc")
        } else {
            theme_of("预设颜色1", "#e53e3e", "#38a169", "#3182ce", "#718096", "#f5f5f7", "#ffffff", "#fafafa", "#1d1d1f")
        }
    }


    pub fn scheme(index: usize, dark: bool) -> (r: ThemeColors)
        ensures
            r@ == scheme_view(index as int, dark),
    {

        if index == 3 && !dark {
            theme_of("方案3｜浅青灰底", "#E16036", "#2EC4B6", "#1D4ED8", "#9AA3AD", "#D8E8EF", "#E2F0F6", "#D8E8EF", "#123039")
        } else if index == 3 && dark {
            theme_of("方案3｜浅青灰底", "#FB923C", "#2DD4BF", "#3B82F6", "#87929E", "#1A252B", "#22333B", "#1A252B", "#E8F2F6")
        } else if index == 4 && !dark {
            theme_of("方案4｜奶油暖米色", "#E63946", "#7FB069", "#4A6FA5", "#A89F91", "#EAE3DA", "#F5EFE6", "#EAE3DA", "#3A322B")
        } else if index == 4 && dark {
            theme_of("方案4｜奶油暖米色", "#FF6B6B", "#9CD37A", "#7FA6D6", "#8A847C", "#221F1D", "#2B2724", "#221F1D", "#F3EDE6")
        } else if index == 5 && !dark {
            theme_of("方案5｜杏仁暖米色", "#C14953", "#8FAE86", "#5D7A99", "#9E9688", "#E8DFD0", "#F3EBDD", "#E8DFD0", "#3B332A")
        } else if index == 5 && dark {
            theme_of("方案5｜杏仁暖米色", "#FF847C", "#B6D2A7", "#8AA7C7", "#7F776D", "#201D1A", "#292521", "#201D1A", "#F1EAE1")
        } else if index == 6 && !dark {
            theme_of("方案6｜草木护眼绿", "#556B2F", "#7BA05B", "#6F8FAF", "#9E9587", "#DDE4D7", "#E8EDE2", "#DDE4D7", "#2C3327")
        } else if index == 6 && dark {
            theme_of("方案6｜草木护眼绿", "#B6CD79", "#D0E6A5", "#A7BED3", "#877F74", "#1D231B", "#242B22", "#1D231B", "#ECF2E6")
        } else if index == 7 && !dark {
            theme_of("方案7｜原木暖棕", "#A64B3D", "#8FA478", "#6F9198", "#A19585", "#E4DBCD", "#EFE7DA", "#E4DBCD", "#382F26")
        } else if index == 7 && dark {
            theme_of("方案7｜原木暖棕", "#E08A78", "#B8CBA2", "#A5C4CB", "#8A7F72", "#221D1A", "#2B2420", "#221D1A", "#F0E8DF")
        } else if index == 8 && !dark {
            theme_of("方案8｜雾蓝灰护眼", "#4F6358", "#6B9080", "#738CA6", "#9AA3AD", "#D9DEE4", "#E4E8EC", "#D9DEE4", "#2A3138")
        } else if index == 8 && dark {
            theme_of("方案8｜雾蓝灰护眼", "#B6CDC0", "#A5D1BE", "#B6C7DB", "#87929E", "#181D23", "#20262D", "#181D23", "#E6ECF2")
        } else {
            theme_of("方案3｜浅青灰底", "#E16036", "#2EC4B6", "#1D4ED8", "#9AA3AD", "#D8E8EF", "#E2F0F6", "#D8E8EF", "#123039")
        }
    }


    /// Replaces one colour: 0 work, 1 short break, 2 long break, 3 pause, 4 background,
    /// 5 surface, 6 window, anything else text.
    pub fn set_field(&mut self, index: usize, value: String)
        ensures
            final(self)@ == theme_with_field(old(self)@, index as int, value@),
    {
        match index {
            0 => self.work = value,
            1 => self.short_break = value,
            2 => self.long_break = value,
            3 => self.pause = value,
            4 => self.bg = value,
            5 => self.surface = value,
            6 => self.window = value,
            _ => self.text = value,
        }
    }
}

/// `t` with colour field `index` replaced by `value` (see `ThemeColors::set_field`).
pub open spec fn theme_with_field(t: ThemeView, index: int, value: Seq<char>) -> ThemeView {
    if index == 0 {
        ThemeView { work: value, ..t }
    } else if index == 1 {
        ThemeView { short_break: value, ..t }
    } else if index == 2 {
        ThemeView { long_break: value, ..t }
    } else if index == 3 {
        ThemeView { pause: value, ..t }
    } else if index == 4 {
        ThemeView { bg: value, ..t }
    } else if index == 5 {
        ThemeView { surface: value, ..t }
    } else if index == 6 {
        ThemeView { window: value, ..t }
    } else {
        ThemeView { text: value, ..t }
    }
}

/// Colour field `index` of `t` (see `ThemeColors::set_field`).
pub open spec fn theme_field_of(t: ThemeView, index: int) -> Seq<char> {
    if index == 0 {
        t.work
    } else if index == 1 {
        t.short_break
    } else if index == 2 {
        t.long_break
    } else if index == 3 {
        t.pause
    } else if index == 4 {
        t.bg
    } else if index == 5 {
        t.surface
    } else if index == 6 {
        t.window
    } else {
        t.text
    }
}

/// The colour string in field `field` of a theme.
pub fn theme_field(theme: &ThemeColors, field: usize) -> (r: &str)
    ensures
        r@ == theme_field_of(theme@, field as int),
{
    match field {
        0 => theme.work.as_str(),
        1 => theme.short_break.as_str(),
        2 => theme.long_break.as_str(),
        3 => theme.pause.as_str(),
        4 => theme.bg.as_str(),
        5 => theme.surface.as_str(),
        6 => theme.window.as_str(),
        _ => theme.text.as_str(),
    }
}

/// The theme choices: three built-in themes, schemes 3 to 8, and a custom or saved theme.
#[derive(Clone, Copy, PartialEq, Eq, Debug, Structural)]
pub enum ThemeId {
    A,
    B,
    E,
    B3,
    B4,
    B5,
    B6,
    B7,
    B8,
    Custom,
    Saved,
}

impl Default for ThemeId {
    fn default() -> (r: Self)
        ensures
            r == ThemeId::A,
    {
        ThemeId::A
    }
}

/// The colours of a theme choice; a custom or saved choice falls back to built-in `A`.
pub open spec fn theme_id_view(id: ThemeId, dark: bool) -> ThemeView {
    match id {
        ThemeId::A => builtin_view("A"@, dark),
        ThemeId::B => builtin_view("B"@, dark),
        ThemeId::E => builtin_view("E"@, dark),
        ThemeId::B3 => scheme_view(3, dark),
        ThemeId::B4 => scheme_view(4, dark),
        ThemeId::B5 => scheme_view(5, dark),
        ThemeId::B6 => scheme_view(6, dark),
        ThemeId::B7 => scheme_view(7, dark),
        ThemeId::B8 => scheme_view(8, dark),
        ThemeId::Custom | ThemeId::Saved => builtin_view("A"@, dark),
    }
}

impl ThemeId {
    pub fn colors(self, dark: bool) -> (r: ThemeColors)
        ensures
            r@ == theme_id_view(self, dark),
    {
        match self {
            ThemeId::A => ThemeColors::builtin("A", dark),
            ThemeId::B => ThemeColors::builtin("B", dark),
            ThemeId::E => ThemeColors::builtin("E", dark),
            ThemeId::B3 => ThemeColors::scheme(3, dark),
            ThemeId::B4 => ThemeColors::scheme(4, dark),
            ThemeId::B5 => ThemeColors::scheme(5, dark),
            ThemeId::B6 => ThemeColors::scheme(6, dark),
            ThemeId::B7 => ThemeColors::scheme(7, dark),
            ThemeId::B8 => ThemeColors::scheme(8, dark),
            ThemeId::Custom | ThemeId::Saved => ThemeColors::builtin("A", dark),
        }
    }
}

} // verus!
