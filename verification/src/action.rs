use vstd::prelude::*;

use crate::color::ThemeId;
use crate::model::{Kind, PresetField, Stage, VisualMode};

verus! {

/// The pages of the main window.
#[derive(Clone, Copy, PartialEq, Eq, Debug, Structural)]
pub enum ViewId {
    Timer,
    Pomodoro,
    History,
    Settings,
}

pub open spec fn view_index(v: ViewId) -> nat {
    match v {
        ViewId::Timer => 0,
        ViewId::Pomodoro => 1,
        ViewId::History => 2,
        ViewId::Settings => 3,
    }
}

pub open spec fn view_label(v: ViewId) -> Seq<char> {
    match v {
        ViewId::Timer => "计时"@,
        ViewId::Pomodoro => "番茄钟"@,
        ViewId::History => "历史"@,
        ViewId::Settings => "设置"@,
    }
}

/// The glyph drawn for a page in the navigation bar.
pub open spec fn view_icon(v: ViewId) -> Seq<char> {
    match v {
        ViewId::Timer => "\u{25F7}"@,
        ViewId::Pomodoro => "\u{25CE}"@,
        ViewId::History => "\u{2630}"@,
        ViewId::Settings => "\u{2699}"@,
    }
}

impl ViewId {
    pub fn index(self) -> (r: usize)
        ensures
            r == view_index(self),
    {
        match self {
            ViewId::Timer => 0,
            ViewId::Pomodoro => 1,
            ViewId::History => 2,
            ViewId::Settings => 3,
        }
    }

    pub fn label(self) -> (r: &'static str)
        ensures
            r@ == view_label(self),
    {
        match self {
            ViewId::Timer => "计时",
            ViewId::Pomodoro => "番茄钟",
            ViewId::History => "历史",
            ViewId::Settings => "设置",
        }
    }

    pub fn icon(self) -> (r: &'static str)
        ensures
            r@ == view_icon(self),
    {
        match self {
            ViewId::Timer => "\u{25F7}",
            ViewId::Pomodoro => "\u{25CE}",
            ViewId::History => "\u{2630}",
            ViewId::Settings => "\u{2699}",
        }
    }
}

/// The foldable sections of the pages.
#[derive(Clone, Copy, PartialEq, Eq, Debug, Structural)]
pub enum Section {
    PomoPreset,
    SettingsPreset,
    SettingsEvent,
    SettingsVisual,
    VisualPomodoro,
    VisualColor,
    VisualText,
    VisualUi,
    SettingsWidget,
}

pub open spec fn section_index(s: Section) -> nat {
    match s {
        Section::PomoPreset => 0,
        Section::SettingsPreset => 1,
        Section::SettingsEvent => 2,
        Section::SettingsVisual => 3,
        Section::VisualPomodoro => 4,
        Section::VisualColor => 5,
        Section::VisualText => 6,
        Section::VisualUi => 7,
        Section::SettingsWidget => 8,
    }
}

impl Section {
    pub fn index(self) -> (r: usize)
        ensures
            r == section_index(self),
            r < 9,
    {
        match self {
            Section::PomoPreset => 0,
            Section::SettingsPreset => 1,
            Section::SettingsEvent => 2,
            Section::SettingsVisual => 3,
            Section::VisualPomodoro => 4,
            Section::VisualColor => 5,
            Section::VisualText => 6,
            Section::VisualUi => 7,
            Section::SettingsWidget => 8,
        }
    }
}

/// The drop-down lists.
#[derive(Clone, Copy, PartialEq, Eq, Debug, Structural)]
pub enum DropId {
    Preset,
    FocusEvent,
    ShortRestEvent,
    LongRestEvent,
    SoundKind,
    FontFamily,
    TimerActivity,
    PomoActivity,
    FilterGroup,
    FilterEvent,
}

/// The numeric preset settings.
#[derive(Clone, Copy, PartialEq, Eq, Debug, Structural)]
pub enum NumberTarget {
    Focus,
    ShortRest,
    LongRest,
    Cycle,
}

/// What an inline text edit changes.
#[derive(Clone, Copy, PartialEq, Eq, Debug, Structural)]
pub enum EditTarget {
    ActivityAdd,
    ActivityName(bool),
    PresetName,
    ThemeName(usize),
    Number(NumberTarget),
}

/// A colour of a custom theme or of a saved theme: (theme index, field index).
#[derive(Clone, Copy, PartialEq, Eq, Debug, Structural)]
pub enum ColorTarget {
    Custom(usize, usize),
    Saved(usize, usize),
}

/// Everything a click, key or tray command can ask for.
#[derive(Clone, Copy, PartialEq, Eq, Debug, Structural)]
pub enum Action {
    Nav(ViewId),
    TimerMode(Kind),
    TimerToggle,
    TimerSkip,
    TimerReset,
    ActivityEdit(bool),
    PomoStage(Stage),
    PomoToggle,
    PomoSkip,
    PomoReset,
    ToggleSection(Section),
    DropToggle(DropId),
    DropPick(DropId, usize),
    NumberStep(NumberTarget, i32),
    NumberEdit(NumberTarget),
    PresetNameEdit,
    PresetNew,
    PresetSave,
    PresetDelete,
    UploadSound,
    PresetSwitch(PresetField),
    ActivityDelete(usize),
    ActivityAddStart,
    ActivityAddConfirm,
    ActivityAddCancel,
    VisualMode(VisualMode),
    ToggleHideNumber,
    ToggleHideAllText,
    ToggleDarkMode,
    ToggleFollowSystem,
    ThemeBuiltin(ThemeId),
    ThemeCustomUse(usize),
    ThemeCustomDelete(usize),
    ThemeCustomNew,
    ThemeSavedUse(usize),
    ThemeSavedDelete(usize),
    ThemeSavePreset,
    ThemeNameEdit(usize),
    ColorPick(ColorTarget),
    FontFamily(usize),
    SliderFontSize,
    SliderFontWeight,
    ToggleSelect(u64),
    SelectAll(bool),
    BatchDelete,
    FilterReset,
    CalendarToggle,
    CalendarPrev,
    CalendarNext,
    CalendarPickDay(u32),
    CalendarClear,
    CalendarApply,
    StopSound,
    PresetApply,
    ToggleBareUi,
    WindowSize(usize),
    /// 桌面小图标（悬浮窗）
    WidgetEdit,
    WidgetOpen,
    WidgetClose,
    /// 桌面小图标在「运行模式（全部控件）」与「待机模式（只留数字与活动）」之间切换
    WidgetModeToggle,
    /// 重挂悬浮窗：重判当前跟谁跑、重算尺寸、重置心跳并立刻重绘
    WidgetRefresh,
    /// 固定桌面小图标位置（开启后拖不动）
    WidgetLock,
    /// 直接指定悬浮窗跟随哪个模块（小图标上的 计时 / 番茄钟 按钮）
    WidgetModule(ViewId),
    WidgetVisible(bool),
    WidgetClickThrough,
    WidgetTopmost,
    SliderWidgetScale,
    SliderWidgetFontSize,
    SliderWidgetFontWeight,
}

pub open spec fn is_slider_action(a: Action) -> bool {
    a == Action::SliderFontSize || a == Action::SliderFontWeight || a == Action::SliderWidgetScale
        || a == Action::SliderWidgetFontSize || a == Action::SliderWidgetFontWeight
}

impl Action {
    /// Whether the action adjusts a slider continuously while the button is held.
    pub fn is_slider(&self) -> (r: bool)
        ensures
            r == is_slider_action(*self),
    {
        match self {
            Action::SliderFontSize | Action::SliderFontWeight | Action::SliderWidgetScale
            | Action::SliderWidgetFontSize | Action::SliderWidgetFontWeight => true,
            _ => false,
        }
    }
}

} // verus!
