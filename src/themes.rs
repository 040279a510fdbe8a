//! Built-in color themes for the terminal and the application chrome.

use vstd::prelude::*;
use crate::color::Color;

verus! {

/// The built-in terminal themes.
#[derive(Debug, Clone, Copy, PartialEq, Eq, Structural)]
pub enum ColorTheme {
    Dracula,
    SolarizedDark,
    SolarizedLight,
    Nord,
    Monokai,
    OneDark,
    Gruvbox,
    TomorrowNight,
    HighContrast,
}

impl Default for ColorTheme {
    fn default() -> (t: ColorTheme)
        ensures
            t == ColorTheme::Dracula,
    {
        ColorTheme::Dracula
    }
}

/// Colors of the application chrome (not of the terminal).
#[derive(Debug, Clone, Copy)]
pub struct ThemeColors {
    pub primary: [u8; 3],
    pub primary_hover: [u8; 3],
    pub secondary: [u8; 3],
    pub success: [u8; 3],
    pub warning: [u8; 3],
    pub danger: [u8; 3],
    pub info: [u8; 3],
    pub bg_primary: [u8; 3],
    pub bg_secondary: [u8; 3],
    pub bg_tertiary: [u8; 3],
    pub bg_surface: [u8; 3],
    pub text_primary: [u8; 3],
    pub text_secondary: [u8; 3],
    pub text_muted: [u8; 3],
    pub border: [u8; 3],
    pub border_focus: [u8; 3],
}

impl ThemeColors {
    /// The dark chrome palette.
    pub fn dark() -> (c: ThemeColors)
        ensures
            c.primary@ == seq![59u8, 130u8, 246u8],
            c.primary_hover@ == seq![37u8, 99u8, 235u8],
            c.secondary@ == seq![100u8, 116u8, 139u8],
            c.success@ == seq![34u8, 197u8, 94u8],
            c.warning@ == seq![234u8, 179u8, 8u8],
            c.danger@ == seq![239u8, 68u8, 68u8],
            c.info@ == seq![14u8, 165u8, 233u8],
            c.bg_primary@ == seq![15u8, 23u8, 42u8],
            c.bg_secondary@ == seq![30u8, 41u8, 59u8],
            c.bg_tertiary@ == seq![51u8, 65u8, 85u8],
            c.bg_surface@ == seq![71u8, 85u8, 105u8],
            c.text_primary@ == seq![248u8, 250u8, 252u8],
            c.text_secondary@ == seq![148u8, 163u8, 184u8],
            c.text_muted@ == seq![100u8, 116u8, 139u8],
            c.border@ == seq![71u8, 85u8, 105u8],
            c.border_focus@ == seq![59u8, 130u8, 246u8],
    {
        ThemeColors {
            primary: [59, 130, 246],
            primary_hover: [37, 99, 235],
            secondary: [100, 116, 139],
            success: [34, 197, 94],
            warning: [234, 179, 8],
            danger: [239, 68, 68],
            info: [14, 165, 233],
            bg_primary: [15, 23, 42],
            bg_secondary: [30, 41, 59],
            bg_tertiary: [51, 65, 85],
            bg_surface: [71, 85, 105],
            text_primary: [248, 250, 252],
            text_secondary: [148, 163, 184],
            text_muted: [100, 116, 139],
            border: [71, 85, 105],
            border_focus: [59, 130, 246],
        }
    }

    /// The light chrome palette.
    pub fn light() -> (c: ThemeColors)
        ensures
            c.primary@ == seq![37u8, 99u8, 235u8],
            c.primary_hover@ == seq![29u8, 78u8, 216u8],
            c.secondary@ == seq![100u8, 116u8, 139u8],
            c.success@ == seq![22u8, 163u8, 74u8],
            c.warning@ == seq![202u8, 138u8, 4u8],
            c.danger@ == seq![220u8, 38u8, 38u8],
            c.info@ == seq![2u8, 132u8, 199u8],
            c.bg_primary@ == seq![255u8, 255u8, 255u8],
            c.bg_secondary@ == seq![248u8, 250u8, 252u8],
            c.bg_tertiary@ == seq![241u8, 245u8, 249u8],
            c.bg_surface@ == seq![226u8, 232u8, 240u8],
            c.text_primary@ == seq![15u8, 23u8, 42u8],
            c.text_secondary@ == seq![71u8, 85u8, 105u8],
            c.text_muted@ == seq![148u8, 163u8, 184u8],
            c.border@ == seq![226u8, 232u8, 240u8],
            c.border_focus@ == seq![37u8, 99u8, 235u8],
    {
        ThemeColors {
            primary: [37, 99, 235],
            primary_hover: [29, 78, 216],
            secondary: [100, 116, 139],
            success: [22, 163, 74],
            warning: [202, 138, 4],
            danger: [220, 38, 38],
            info: [2, 132, 199],
            bg_primary: [255, 255, 255],
            bg_secondary: [248, 250, 252],
            bg_tertiary: [241, 245, 249],
            bg_surface: [226, 232, 240],
            text_primary: [15, 23, 42],
            text_secondary: [71, 85, 105],
            text_muted: [148, 163, 184],
            border: [226, 232, 240],
            border_focus: [37, 99, 235],
        }
    }
}

/// A terminal color theme: background, foreground, cursor and selection
/// colors and the 16 ANSI colors (8 normal, then 8 bright).
#[derive(Debug, Clone)]
pub struct Theme {
    pub name: String,
    pub background: [u8; 3],
    pub foreground: [u8; 3],
    pub cursor: [u8; 3],
    pub selection: [u8; 3],
    pub ansi: [[u8; 3]; 16],
}

impl Theme {
    /// The Dracula theme.
    pub fn dracula() -> (t: Theme)
        ensures
            theme_is(t, 0),
    {
        Theme {
            name: "Dracula".to_owned(),
            background: [40, 42, 54],
            foreground: [248, 248, 242],
            cursor: [248, 248, 242],
            selection: [68, 71, 90],
            ansi: [
                [33, 34, 44],
                [255, 85, 85],
                [80, 250, 123],
                [241, 250, 140],
                [189, 147, 249],
                [255, 121, 198],
                [139, 233, 253],
                [248, 248, 242],
                [98, 114, 164],
                [255, 110, 103],
                [90, 247, 142],
                [244, 249, 157],
                [202, 169, 250],
                [255, 146, 208],
                [154, 237, 254],
                [255, 255, 255],
            ],
        }
    }

    /// The Solarized Dark theme.
    pub fn solarized_dark() -> (t: Theme)
        ensures
            theme_is(t, 1),
    {
        Theme {
            name: "Solarized Dark".to_owned(),
            background: [0, 43, 54],
            foreground: [131, 148, 150],
            cursor: [131, 148, 150],
            selection: [7, 54, 66],
            ansi: [
                [7, 54, 66],
                [220, 50, 47],
                [133, 153, 0],
                [181, 137, 0],
                [38, 139, 210],
                [211, 54, 130],
                [42, 161, 152],
                [238, 232, 213],
                [0, 43, 54],
                [203, 75, 22],
                [88, 110, 117],
                [101, 123, 131],
                [131, 148, 150],
                [108, 113, 196],
                [147, 161, 161],
                [253, 246, 227],
            ],
        }
    }

    /// The Solarized Light theme.
    pub fn solarized_light() -> (t: Theme)
        ensures
            theme_is(t, 2),
    {
        Theme {
            name: "Solarized Light".to_owned(),
            background: [253, 246, 227],
            foreground: [101, 123, 131],
            cursor: [101, 123, 131],
            selection: [238, 232, 213],
            ansi: [
                [238, 232, 213],
                [220, 50, 47],
                [133, 153, 0],
                [181, 137, 0],
                [38, 139, 210],
                [211, 54, 130],
                [42, 161, 152],
                [7, 54, 66],
                [253, 246, 227],
                [203, 75, 22],
                [88, 110, 117],
                [101, 123, 131],
                [131, 148, 150],
                [108, 113, 196],
                [147, 161, 161],
                [0, 43, 54],
            ],
        }
    }

    /// The Nord theme.
    pub fn nord() -> (t: Theme)
        ensures
            theme_is(t, 3),
    {
        Theme {
            name: "Nord".to_owned(),
            background: [46, 52, 64],
            foreground: [216, 222, 233],
            cursor: [216, 222, 233],
            selection: [67, 76, 94],
            ansi: [
                [59, 66, 82],
                [191, 97, 106],
                [163, 190, 140],
                [235, 203, 139],
                [129, 161, 193],
                [180, 142, 173],
                [136, 192, 208],
                [229, 233, 240],
                [76, 86, 106],
                [191, 97, 106],
                [163, 190, 140],
                [235, 203, 139],
                [129, 161, 193],
                [180, 142, 173],
                [143, 188, 187],
                [236, 239, 244],
            ],
        }
    }

    /// The Monokai theme.
    pub fn monokai() -> (t: Theme)
        ensures
            theme_is(t, 4),
    {
        Theme {
            name: "Monokai".to_owned(),
            background: [39, 40, 34],
            foreground: [248, 248, 242],
            cursor: [248, 248, 242],
            selection: [73, 72, 62],
            ansi: [
                [39, 40, 34],
                [249, 38, 114],
                [166, 226, 46],
                [244, 191, 117],
                [102, 217, 239],
                [174, 129, 255],
                [161, 239, 228],
                [248, 248, 242],
                [117, 113, 94],
                [249, 38, 114],
                [166, 226, 46],
                [244, 191, 117],
                [102, 217, 239],
                [174, 129, 255],
                [161, 239, 228],
                [249, 248, 245],
            ],
        }
    }

    /// The One Dark theme.
    pub fn one_dark() -> (t: Theme)
        ensures
            theme_is(t, 5),
    {
        Theme {
            name: "One Dark".to_owned(),
            background: [40, 44, 52],
            foreground: [171, 178, 191],
            cursor: [171, 178, 191],
            selection: [62, 68, 81],
            ansi: [
                [40, 44, 52],
                [224, 108, 117],
                [152, 195, 121],
                [229, 192, 123],
                [97, 175, 239],
                [198, 120, 221],
                [86, 182, 194],
                [171, 178, 191],
                [92, 99, 112],
                [224, 108, 117],
                [152, 195, 121],
                [229, 192, 123],
                [97, 175, 239],
                [198, 120, 221],
                [86, 182, 194],
                [255, 255, 255],
            ],
        }
    }

    /// The Gruvbox theme.
    pub fn gruvbox() -> (t: Theme)
        ensures
            theme_is(t, 6),
    {
        Theme {
            name: "Gruvbox".to_owned(),
            background: [40, 40, 40],
            foreground: [235, 219, 178],
            cursor: [235, 219, 178],
            selection: [80, 73, 69],
            ansi: [
                [40, 40, 40],
                [204, 36, 29],
                [152, 151, 26],
                [215, 153, 33],
                [69, 133, 136],
                [177, 98, 134],
                [104, 157, 106],
                [168, 153, 132],
                [146, 131, 116],
                [251, 73, 52],
                [184, 187, 38],
                [250, 189, 47],
                [131, 165, 152],
                [211, 134, 155],
                [142, 192, 124],
                [235, 219, 178],
            ],
        }
    }

    /// The Tomorrow Night theme.
    pub fn tomorrow_night() -> (t: Theme)
        ensures
            theme_is(t, 7),
    {
        Theme {
            name: "Tomorrow Night".to_owned(),
            background: [29, 31, 33],
            foreground: [197, 200, 198],
            cursor: [197, 200, 198],
            selection: [55, 59, 65],
            ansi: [
                [29, 31, 33],
                [204, 102, 102],
                [181, 189, 104],
                [240, 198, 116],
                [129, 162, 190],
                [178, 148, 187],
                [138, 190, 183],
                [197, 200, 198],
                [150, 152, 150],
                [204, 102, 102],
                [181, 189, 104],
                [240, 198, 116],
                [129, 162, 190],
                [178, 148, 187],
                [138, 190, 183],
                [255, 255, 255],
            ],
        }
    }

    /// The High Contrast theme.
    pub fn high_contrast() -> (t: Theme)
        ensures
            theme_is(t, 8),
    {
        Theme {
            name: "High Contrast".to_owned(),
            background: [0, 0, 0],
            foreground: [255, 255, 255],
            cursor: [255, 255, 255],
            selection: [68, 68, 68],
            ansi: [
                [0, 0, 0],
                [255, 0, 0],
                [0, 255, 0],
                [255, 255, 0],
                [0, 0, 255],
                [255, 0, 255],
                [0, 255, 255],
                [255, 255, 255],
                [128, 128, 128],
                [255, 128, 128],
                [128, 255, 128],
                [255, 255, 128],
                [128, 128, 255],
                [255, 128, 255],
                [128, 255, 255],
                [255, 255, 255],
            ],
        }
    }

    pub fn background_color(&self) -> (c: Color)
        ensures
            c == (Color { r: self.background[0], g: self.background[1], b: self.background[2] }),
    {
        Color::rgb(self.background[0], self.background[1], self.background[2])
    }

    pub fn foreground_color(&self) -> (c: Color)
        ensures
            c == (Color { r: self.foreground[0], g: self.foreground[1], b: self.foreground[2] }),
    {
        Color::rgb(self.foreground[0], self.foreground[1], self.foreground[2])
    }

    /// Every built-in theme, in the order of `ColorTheme::all`.
    pub fn builtin_themes() -> (v: Vec<Theme>)
        ensures
            v@.len() == 9,
            forall|i: int| 0 <= i < 9 ==> theme_is(#[trigger] v@[i], i),
    {
        let all = ColorTheme::all();
        let mut v: Vec<Theme> = Vec::new();
        let mut i: usize = 0;
        while i < all.len()
            invariant
                all@ == all_themes(),
                i <= 9,
                v@.len() == i,
                forall|k: int| 0 <= k < i ==> theme_is(#[trigger] v@[k], k),
            decreases 9 - i,
        {
            v.push(all[i].to_theme());
            i += 1;
        }
        v
    }
}

impl Default for Theme {
    fn default() -> (t: Theme)
        ensures
            theme_is(t, 0),
    {
        Theme::dracula()
    }
}

/// `t` is the built-in theme at position `i` of `all_themes`: its name,
/// its four main colors and its 16 ANSI colors.
pub open spec fn theme_is(t: Theme, i: int) -> bool {
    if i == 0 {
        &&& t.name@ == "Dracula"@
        &&& t.background@ == seq![40u8, 42u8, 54u8]
        &&& t.foreground@ == seq![248u8, 248u8, 242u8]
        &&& t.cursor@ == seq![248u8, 248u8, 242u8]
        &&& t.selection@ == seq![68u8, 71u8, 90u8]
        &&& t.ansi@[0]@ == seq![33u8, 34u8, 44u8]
        &&& t.ansi@[1]@ == seq![255u8, 85u8, 85u8]
        &&& t.ansi@[2]@ == seq![80u8, 250u8, 123u8]
        &&& t.ansi@[3]@ == seq![241u8, 250u8, 140u8]
        &&& t.ansi@[4]@ == seq![189u8, 147u8, 249u8]
        &&& t.ansi@[5]@ == seq![255u8, 121u8, 198u8]
        &&& t.ansi@[6]@ == seq![139u8, 233u8, 253u8]
        &&& t.ansi@[7]@ == seq![248u8, 248u8, 242u8]
        &&& t.ansi@[8]@ == seq![98u8, 114u8, 164u8]
        &&& t.ansi@[9]@ == seq![255u8, 110u8, 103u8]
        &&& t.ansi@[10]@ == seq![90u8, 247u8, 142u8]
        &&& t.ansi@[11]@ == seq![244u8, 249u8, 157u8]
        &&& t.ansi@[12]@ == seq![202u8, 169u8, 250u8]
        &&& t.ansi@[13]@ == seq![255u8, 146u8, 208u8]
        &&& t.ansi@[14]@ == seq![154u8, 237u8, 254u8]
        &&& t.ansi@[15]@ == seq![255u8, 255u8, 255u8]
    } else if i == 1 {
        &&& t.name@ == "Solarized Dark"@
        &&& t.background@ == seq![0u8, 43u8, 54u8]
        &&& t.foreground@ == seq![131u8, 148u8, 150u8]
        &&& t.cursor@ == seq![131u8, 148u8, 150u8]
        &&& t.selection@ == seq![7u8, 54u8, 66u8]
        &&& t.ansi@[0]@ == seq![7u8, 54u8, 66u8]
        &&& t.ansi@[1]@ == seq![220u8, 50u8, 47u8]
        &&& t.ansi@[2]@ == seq![133u8, 153u8, 0u8]
        &&& t.ansi@[3]@ == seq![181u8, 137u8, 0u8]
        &&& t.ansi@[4]@ == seq![38u8, 139u8, 210u8]
        &&& t.ansi@[5]@ == seq![211u8, 54u8, 130u8]
        &&& t.ansi@[6]@ == seq![42u8, 161u8, 152u8]
        &&& t.ansi@[7]@ == seq![238u8, 232u8, 213u8]
        &&& t.ansi@[8]@ == seq![0u8, 43u8, 54u8]
        &&& t.ansi@[9]@ == seq![203u8, 75u8, 22u8]
        &&& t.ansi@[10]@ == seq![88u8, 110u8, 117u8]
        &&& t.ansi@[11]@ == seq![101u8, 123u8, 131u8]
        &&& t.ansi@[12]@ == seq![131u8, 148u8, 150u8]
        &&& t.ansi@[13]@ == seq![108u8, 113u8, 196u8]
        &&& t.ansi@[14]@ == seq![147u8, 161u8, 161u8]
        &&& t.ansi@[15]@ == seq![253u8, 246u8, 227u8]
    } else if i == 2 {
        &&& t.name@ == "Solarized Light"@
        &&& t.background@ == seq![253u8, 246u8, 227u8]
        &&& t.foreground@ == seq![101u8, 123u8, 131u8]
        &&& t.cursor@ == seq![101u8, 123u8, 131u8]
        &&& t.selection@ == seq![238u8, 232u8, 213u8]
        &&& t.ansi@[0]@ == seq![238u8, 232u8, 213u8]
        &&& t.ansi@[1]@ == seq![220u8, 50u8, 47u8]
        &&& t.ansi@[2]@ == seq![133u8, 153u8, 0u8]
        &&& t.ansi@[3]@ == seq![181u8, 137u8, 0u8]
        &&& t.ansi@[4]@ == seq![38u8, 139u8, 210u8]
        &&& t.ansi@[5]@ == seq![211u8, 54u8, 130u8]
        &&& t.ansi@[6]@ == seq![42u8, 161u8, 152u8]
        &&& t.ansi@[7]@ == seq![7u8, 54u8, 66u8]
        &&& t.ansi@[8]@ == seq![253u8, 246u8, 227u8]
        &&& t.ansi@[9]@ == seq![203u8, 75u8, 22u8]
        &&& t.ansi@[10]@ == seq![88u8, 110u8, 117u8]
        &&& t.ansi@[11]@ == seq![101u8, 123u8, 131u8]
        &&& t.ansi@[12]@ == seq![131u8, 148u8, 150u8]
        &&& t.ansi@[13]@ == seq![108u8, 113u8, 196u8]
        &&& t.ansi@[14]@ == seq![147u8, 161u8, 161u8]
        &&& t.ansi@[15]@ == seq![0u8, 43u8, 54u8]
    } else if i == 3 {
        &&& t.name@ == "Nord"@
        &&& t.background@ == seq![46u8, 52u8, 64u8]
        &&& t.foreground@ == seq![216u8, 222u8, 233u8]
        &&& t.cursor@ == seq![216u8, 222u8, 233u8]
        &&& t.selection@ == seq![67u8, 76u8, 94u8]
        &&& t.ansi@[0]@ == seq![59u8, 66u8, 82u8]
        &&& t.ansi@[1]@ == seq![191u8, 97u8, 106u8]
        &&& t.ansi@[2]@ == seq![163u8, 190u8, 140u8]
        &&& t.ansi@[3]@ == seq![235u8, 203u8, 139u8]
        &&& t.ansi@[4]@ == seq![129u8, 161u8, 193u8]
        &&& t.ansi@[5]@ == seq![180u8, 142u8, 173u8]
        &&& t.ansi@[6]@ == seq![136u8, 192u8, 208u8]
        &&& t.ansi@[7]@ == seq![229u8, 233u8, 240u8]
        &&& t.ansi@[8]@ == seq![76u8, 86u8, 106u8]
        &&& t.ansi@[9]@ == seq![191u8, 97u8, 106u8]
        &&& t.ansi@[10]@ == seq![163u8, 190u8, 140u8]
        &&& t.ansi@[11]@ == seq![235u8, 203u8, 139u8]
        &&& t.ansi@[12]@ == seq![129u8, 161u8, 193u8]
        &&& t.ansi@[13]@ == seq![180u8, 142u8, 173u8]
        &&& t.ansi@[14]@ == seq![143u8, 188u8, 187u8]
        &&& t.ansi@[15]@ == seq![236u8, 239u8, 244u8]
    } else if i == 4 {
        &&& t.name@ == "Monokai"@
        &&& t.background@ == seq![39u8, 40u8, 34u8]
        &&& t.foreground@ == seq![248u8, 248u8, 242u8]
        &&& t.cursor@ == seq![248u8, 248u8, 242u8]
        &&& t.selection@ == seq![73u8, 72u8, 62u8]
        &&& t.ansi@[0]@ == seq![39u8, 40u8, 34u8]
        &&& t.ansi@[1]@ == seq![249u8, 38u8, 114u8]
        &&& t.ansi@[2]@ == seq![166u8, 226u8, 46u8]
        &&& t.ansi@[3]@ == seq![244u8, 191u8, 117u8]
        &&& t.ansi@[4]@ == seq![102u8, 217u8, 239u8]
        &&& t.ansi@[5]@ == seq![174u8, 129u8, 255u8]
        &&& t.ansi@[6]@ == seq![161u8, 239u8, 228u8]
        &&& t.ansi@[7]@ == seq![248u8, 248u8, 242u8]
        &&& t.ansi@[8]@ == seq![117u8, 113u8, 94u8]
        &&& t.ansi@[9]@ == seq![249u8, 38u8, 114u8]
        &&& t.ansi@[10]@ == seq![166u8, 226u8, 46u8]
        &&& t.ansi@[11]@ == seq![244u8, 191u8, 117u8]
        &&& t.ansi@[12]@ == seq![102u8, 217u8, 239u8]
        &&& t.ansi@[13]@ == seq![174u8, 129u8, 255u8]
        &&& t.ansi@[14]@ == seq![161u8, 239u8, 228u8]
        &&& t.ansi@[15]@ == seq![249u8, 248u8, 245u8]
    } else if i == 5 {
        &&& t.name@ == "One Dark"@
        &&& t.background@ == seq![40u8, 44u8, 52u8]
        &&& t.foreground@ == seq![171u8, 178u8, 191u8]
        &&& t.cursor@ == seq![171u8, 178u8, 191u8]
        &&& t.selection@ == seq![62u8, 68u8, 81u8]
        &&& t.ansi@[0]@ == seq![40u8, 44u8, 52u8]
        &&& t.ansi@[1]@ == seq![224u8, 108u8, 117u8]
        &&& t.ansi@[2]@ == seq![152u8, 195u8, 121u8]
        &&& t.ansi@[3]@ == seq![229u8, 192u8, 123u8]
        &&& t.ansi@[4]@ == seq![97u8, 175u8, 239u8]
        &&& t.ansi@[5]@ == seq![198u8, 120u8, 221u8]
        &&& t.ansi@[6]@ == seq![86u8, 182u8, 194u8]
        &&& t.ansi@[7]@ == seq![171u8, 178u8, 191u8]
        &&& t.ansi@[8]@ == seq![92u8, 99u8, 112u8]
        &&& t.ansi@[9]@ == seq![224u8, 108u8, 117u8]
        &&& t.ansi@[10]@ == seq![152u8, 195u8, 121u8]
        &&& t.ansi@[11]@ == seq![229u8, 192u8, 123u8]
        &&& t.ansi@[12]@ == seq![97u8, 175u8, 239u8]
        &&& t.ansi@[13]@ == seq![198u8, 120u8, 221u8]
        &&& t.ansi@[14]@ == seq![86u8, 182u8, 194u8]
        &&& t.ansi@[15]@ == seq![255u8, 255u8, 255u8]
    } else if i == 6 {
        &&& t.name@ == "Gruvbox"@
        &&& t.background@ == seq![40u8, 40u8, 40u8]
        &&& t.foreground@ == seq![235u8, 219u8, 178u8]
        &&& t.cursor@ == seq![235u8, 219u8, 178u8]
        &&& t.selection@ == seq![80u8, 73u8, 69u8]
        &&& t.ansi@[0]@ == seq![40u8, 40u8, 40u8]
        &&& t.ansi@[1]@ == seq![204u8, 36u8, 29u8]
        &&& t.ansi@[2]@ == seq![152u8, 151u8, 26u8]
        &&& t.ansi@[3]@ == seq![215u8, 153u8, 33u8]
        &&& t.ansi@[4]@ == seq![69u8, 133u8, 136u8]
        &&& t.ansi@[5]@ == seq![177u8, 98u8, 134u8]
        &&& t.ansi@[6]@ == seq![104u8, 157u8, 106u8]
        &&& t.ansi@[7]@ == seq![168u8, 153u8, 132u8]
        &&& t.ansi@[8]@ == seq![146u8, 131u8, 116u8]
        &&& t.ansi@[9]@ == seq![251u8, 73u8, 52u8]
        &&& t.ansi@[10]@ == seq![184u8, 187u8, 38u8]
        &&& t.ansi@[11]@ == seq![250u8, 189u8, 47u8]
        &&& t.ansi@[12]@ == seq![131u8, 165u8, 152u8]
        &&& t.ansi@[13]@ == seq![211u8, 134u8, 155u8]
        &&& t.ansi@[14]@ == seq![142u8, 192u8, 124u8]
        &&& t.ansi@[15]@ == seq![235u8, 219u8, 178u8]
    } else if i == 7 {
        &&& t.name@ == "Tomorrow Night"@
        &&& t.background@ == seq![29u8, 31u8, 33u8]
        &&& t.foreground@ == seq![197u8, 200u8, 198u8]
        &&& t.cursor@ == seq![197u8, 200u8, 198u8]
        &&& t.selection@ == seq![55u8, 59u8, 65u8]
        &&& t.ansi@[0]@ == seq![29u8, 31u8, 33u8]
        &&& t.ansi@[1]@ == seq![204u8, 102u8, 102u8]
        &&& t.ansi@[2]@ == seq![181u8, 189u8, 104u8]
        &&& t.ansi@[3]@ == seq![240u8, 198u8, 116u8]
        &&& t.ansi@[4]@ == seq![129u8, 162u8, 190u8]
        &&& t.ansi@[5]@ == seq![178u8, 148u8, 187u8]
        &&& t.ansi@[6]@ == seq![138u8, 190u8, 183u8]
        &&& t.ansi@[7]@ == seq![197u8, 200u8, 198u8]
        &&& t.ansi@[8]@ == seq![150u8, 152u8, 150u8]
        &&& t.ansi@[9]@ == seq![204u8, 102u8, 102u8]
        &&& t.ansi@[10]@ == seq![181u8, 189u8, 104u8]
        &&& t.ansi@[11]@ == seq![240u8, 198u8, 116u8]
        &&& t.ansi@[12]@ == seq![129u8, 162u8, 190u8]
        &&& t.ansi@[13]@ == seq![178u8, 148u8, 187u8]
        &&& t.ansi@[14]@ == seq![138u8, 190u8, 183u8]
        &&& t.ansi@[15]@ == seq![255u8, 255u8, 255u8]
    } else {
        &&& t.name@ == "High Contrast"@
        &&& t.background@ == seq![0u8, 0u8, 0u8]
        &&& t.foreground@ == seq![255u8, 255u8, 255u8]
        &&& t.cursor@ == seq![255u8, 255u8, 255u8]
        &&& t.selection@ == seq![68u8, 68u8, 68u8]
        &&& t.ansi@[0]@ == seq![0u8, 0u8, 0u8]
        &&& t.ansi@[1]@ == seq![255u8, 0u8, 0u8]
        &&& t.ansi@[2]@ == seq![0u8, 255u8, 0u8]
        &&& t.ansi@[3]@ == seq![255u8, 255u8, 0u8]
        &&& t.ansi@[4]@ == seq![0u8, 0u8, 255u8]
        &&& t.ansi@[5]@ == seq![255u8, 0u8, 255u8]
        &&& t.ansi@[6]@ == seq![0u8, 255u8, 255u8]
        &&& t.ansi@[7]@ == seq![255u8, 255u8, 255u8]
        &&& t.ansi@[8]@ == seq![128u8, 128u8, 128u8]
        &&& t.ansi@[9]@ == seq![255u8, 128u8, 128u8]
        &&& t.ansi@[10]@ == seq![128u8, 255u8, 128u8]
        &&& t.ansi@[11]@ == seq![255u8, 255u8, 128u8]
        &&& t.ansi@[12]@ == seq![128u8, 128u8, 255u8]
        &&& t.ansi@[13]@ == seq![255u8, 128u8, 255u8]
        &&& t.ansi@[14]@ == seq![128u8, 255u8, 255u8]
        &&& t.ansi@[15]@ == seq![255u8, 255u8, 255u8]
    }
}

/// The built-in themes in their fixed order.
pub open spec fn all_themes() -> Seq<ColorTheme> {
    seq![
        ColorTheme::Dracula,
        ColorTheme::SolarizedDark,
        ColorTheme::SolarizedLight,
        ColorTheme::Nord,
        ColorTheme::Monokai,
        ColorTheme::OneDark,
        ColorTheme::Gruvbox,
        ColorTheme::TomorrowNight,
        ColorTheme::HighContrast,
    ]
}

impl ColorTheme {
    /// Every built-in theme.
    pub fn all() -> (v: Vec<ColorTheme>)
        ensures
            v@ == all_themes(),
    {
        let v = vec![
            ColorTheme::Dracula,
            ColorTheme::SolarizedDark,
            ColorTheme::SolarizedLight,
            ColorTheme::Nord,
            ColorTheme::Monokai,
            ColorTheme::OneDark,
            ColorTheme::Gruvbox,
            ColorTheme::TomorrowNight,
            ColorTheme::HighContrast,
        ];
        assert(v@ =~= all_themes());
        v
    }

    /// The theme's colors.
    pub fn to_theme(&self) -> (t: Theme)
        ensures
            all_themes().contains(*self),
            forall|i: int| 0 <= i < 9 && all_themes()[i] == *self ==> theme_is(t, i),
    {
        match self {
            ColorTheme::Dracula => Theme::dracula(),
            ColorTheme::SolarizedDark => Theme::solarized_dark(),
            ColorTheme::SolarizedLight => Theme::solarized_light(),
            ColorTheme::Nord => Theme::nord(),
            ColorTheme::Monokai => Theme::monokai(),
            ColorTheme::OneDark => Theme::one_dark(),
            ColorTheme::Gruvbox => Theme::gruvbox(),
            ColorTheme::TomorrowNight => Theme::tomorrow_night(),
            ColorTheme::HighContrast => Theme::high_contrast(),
        }
    }
}

} // verus!
