//! The titlecase mappings of the Unicode Character Database, version 14.0,
//! as a table sorted by the codepoint that is mapped: the simple mappings and
//! the unconditional special mappings.

use vstd::prelude::*;

verus! {

/// Number of rows of [`TITLE`].
pub const TITLE_LEN: usize = 1452;

/// Every codepoint whose titlecase differs from itself, with the one to three
/// codepoints of its titlecase. Unused trailing slots hold NUL. The rows
/// ascend strictly by their first field.
pub const TITLE: [(u32, char, char, char); 1452] = [
    (0x0061, '\u{41}', '\0', '\0'),
    (0x0062, '\u{42}', '\0', '\0'),
    (0x0063, '\u{43}', '\0', '\0'),
    (0x0064, '\u{44}', '\0', '\0'),
    (0x0065, '\u{45}', '\0', '\0'),
    (0x0066, '\u{46}', '\0', '\0'),
    (0x0067, '\u{47}', '\0', '\0'),
    (0x0068, '\u{48}', '\0', '\0'),
    (0x0069, '\u{49}', '\0', '\0'),
    (0x006A, '\u{4A}', '\0', '\0'),
    (0x006B, '\u{4B}', '\0', '\0'),
    (0x006C, '\u{4C}', '\0', '\0'),
    (0x006D, '\u{4D}', '\0', '\0'),
    (0x006E, '\u{4E}', '\0', '\0'),
    (0x006F, '\u{4F}', '\0', '\0'),
    (0x0070, '\u{50}', '\0', '\0'),
    (0x0071, '\u{51}', '\0', '\0'),
    (0x0072, '\u{52}', '\0', '\0'),
    (0x0073, '\u{53}', '\0', '\0'),
    (0x0074, '\u{54}', '\0', '\0'),
    (0x0075, '\u{55}', '\0', '\0'),
    (0x0076, '\u{56}', '\0', '\0'),
    (0x0077, '\u{57}', '\0', '\0'),
    (0x0078, '\u{58}', '\0', '\0'),
    (0x0079, '\u{59}', '\0', '\0'),
    (0x007A, '\u{5A}', '\0', '\0'),
    (0x00B5, '\u{39C}', '\0', '\0'),
    (0x00DF, '\u{53}', '\u{73}', '\0'),
    (0x00E0, '\u{C0}', '\0', '\0'),
    (0x00E1, '\u{C1}', '\0', '\0'),
    (0x00E2, '\u{C2}', '\0', '\0'),
    (0x00E3, '\u{C3}', '\0', '\0'),
    (0x00E4, '\u{C4}', '\0', '\0'),
    (0x00E5, '\u{C5}', '\0', '\0'),
    (0x00E6, '\u{C6}', '\0', '\0'),
    (0x00E7, '\u{C7}', '\0', '\0'),
    (0x00E8, '\u{C8}', '\0', '\0'),
    (0x00E9, '\u{C9}', '\0', '\0'),
    (0x00EA, '\u{CA}', '\0', '\0'),
    (0x00EB, '\u{CB}', '\0', '\0'),
    (0x00EC, '\u{CC}', '\0', '\0'),
    (0x00ED, '\u{CD}', '\0', '\0'),
    (0x00EE, '\u{CE}', '\0', '\0'),
    (0x00EF, '\u{CF}', '\0', '\0'),
    (0x00F0, '\u{D0}', '\0', '\0'),
    (0x00F1, '\u{D1}', '\0', '\0'),
    (0x00F2, '\u{D2}', '\0', '\0'),
    (0x00F3, '\u{D3}', '\0', '\0'),
    (0x00F4, '\u{D4}', '\0', '\0'),
    (0x00F5, '\u{D5}', '\0', '\0'),
    (0x00F6, '\u{D6}', '\0', '\0'),
    (0x00F8, '\u{D8}', '\0', '\0'),
    (0x00F9, '\u{D9}', '\0', '\0'),
    (0x00FA, '\u{DA}', '\0', '\0'),
    (0x00FB, '\u{DB}', '\0', '\0'),
    (0x00FC, '\u{DC}', '\0', '\0'),
    (0x00FD, '\u{DD}', '\0', '\0'),
    (0x00FE, '\u{DE}', '\0', '\0'),
    (0x00FF, '\u{178}', '\0', '\0'),
    (0x0101, '\u{100}', '\0', '\0'),
    (0x0103, '\u{102}', '\0', '\0'),
    (0x0105, '\u{104}', '\0', '\0'),
    (0x0107, '\u{106}', '\0', '\0'),
    (0x0109, '\u{108}', '\0', '\0'),
    (0x010B, '\u{10A}', '\0', '\0'),
    (0x010D, '\u{10C}', '\0', '\0'),
    (0x010F, '\u{10E}', '\0', '\0'),
    (0x0111, '\u{110}', '\0', '\0'),
    (0x0113, '\u{112}', '\0', '\0'),
    (0x0115, '\u{114}', '\0', '\0'),
    (0x0117, '\u{116}', '\0', '\0'),
    (0x0119, '\u{118}', '\0', '\0'),
    (0x011B, '\u{11A}', '\0', '\0'),
    (0x011D, '\u{11C}', '\0', '\0'),
    (0x011F, '\u{11E}', '\0', '\0'),
    (0x0121, '\u{120}', '\0', '\0'),
    (0x0123, '\u{122}', '\0', '\0'),
    (0x0125, '\u{124}', '\0', '\0'),
    (0x0127, '\u{126}', '\0', '\0'),
    (0x0129, '\u{128}', '\0', '\0'),
    (0x012B, '\u{12A}', '\0', '\0'),
    (0x012D, '\u{12C}', '\0', '\0'),
    (0x012F, '\u{12E}', '\0', '\0'),
    (0x0131, '\u{49}', '\0', '\0'),
    (0x0133, '\u{132}', '\0', '\0'),
    (0x0135, '\u{134}', '\0', '\0'),
    (0x0137, '\u{136}', '\0', '\0'),
    (0x013A, '\u{139}', '\0', '\0'),
    (0x013C, '\u{13B}', '\0', '\0'),
    (0x013E, '\u{13D}', '\0', '\0'),
    (0x0140, '\u{13F}', '\0', '\0'),
    (0x0142, '\u{141}', '\0', '\0'),
    (0x0144, '\u{143}', '\0', '\0'),
    (0x0146, '\u{145}', '\0', '\0'),
    (0x0148, '\u{147}', '\0', '\0'),
    (0x0149, '\u{2BC}', '\u{4E}', '\0'),
    (0x014B, '\u{14A}', '\0', '\0'),
    (0x014D, '\u{14C}', '\0', '\0'),
    (0x014F, '\u{14E}', '\0', '\0'),
    (0x0151, '\u{150}', '\0', '\0'),
    (0x0153, '\u{152}', '\0', '\0'),
    (0x0155, '\u{154}', '\0', '\0'),
    (0x0157, '\u{156}', '\0', '\0'),
    (0x0159, '\u{158}', '\0', '\0'),
    (0x015B, '\u{15A}', '\0', '\0'),
    (0x015D, '\u{15C}', '\0', '\0'),
    (0x015F, '\u{15E}', '\0', '\0'),
    (0x0161, '\u{160}', '\0', '\0'),
    (0x0163, '\u{162}', '\0', '\0'),
    (0x0165, '\u{164}', '\0', '\0'),
    (0x0167, '\u{166}', '\0', '\0'),
    (0x0169, '\u{168}', '\0', '\0'),
    (0x016B, '\u{16A}', '\0', '\0'),
    (0x016D, '\u{16C}', '\0', '\0'),
    (0x016F, '\u{16E}', '\0', '\0'),
    (0x0171, '\u{170}', '\0', '\0'),
    (0x0173, '\u{172}', '\0', '\0'),
    (0x0175, '\u{174}', '\0', '\0'),
    (0x0177, '\u{176}', '\0', '\0'),
    (0x017A, '\u{179}', '\0', '\0'),
    (0x017C, '\u{17B}', '\0', '\0'),
    (0x017E, '\u{17D}', '\0', '\0'),
    (0x017F, '\u{53}', '\0', '\0'),
    (0x0180, '\u{243}', '\0', '\0'),
    (0x0183, '\u{182}', '\0', '\0'),
    (0x0185, '\u{184}', '\0', '\0'),
    (0x0188, '\u{187}', '\0', '\0'),
    (0x018C, '\u{18B}', '\0', '\0'),
    (0x0192, '\u{191}', '\0', '\0'),
    (0x0195, '\u{1F6}', '\0', '\0'),
    (0x0199, '\u{198}', '\0', '\0'),
    (0x019A, '\u{23D}', '\0', '\0'),
    (0x019E, '\u{220}', '\0', '\0'),
    (0x01A1, '\u{1A0}', '\0', '\0'),
    (0x01A3, '\u{1A2}', '\0', '\0'),
    (0x01A5, '\u{1A4}', '\0', '\0'),
    (0x01A8, '\u{1A7}', '\0', '\0'),
    (0x01AD, '\u{1AC}', '\0', '\0'),
    (0x01B0, '\u{1AF}', '\0', '\0'),
    (0x01B4, '\u{1B3}', '\0', '\0'),
    (0x01B6, '\u{1B5}', '\0', '\0'),
    (0x01B9, '\u{1B8}', '\0', '\0'),
    (0x01BD, '\u{1BC}', '\0', '\0'),
    (0x01BF, '\u{1F7}', '\0', '\0'),
    (0x01C4, '\u{1C5}', '\0', '\0'),
    (0x01C6, '\u{1C5}', '\0', '\0'),
    (0x01C7, '\u{1C8}', '\0', '\0'),
    (0x01C9, '\u{1C8}', '\0', '\0'),
    (0x01CA, '\u{1CB}', '\0', '\0'),
    (0x01CC, '\u{1CB}', '\0', '\0'),
    (0x01CE, '\u{1CD}', '\0', '\0'),
    (0x01D0, '\u{1CF}', '\0', '\0'),
    (0x01D2, '\u{1D1}', '\0', '\0'),
    (0x01D4, '\u{1D3}', '\0', '\0'),
    (0x01D6, '\u{1D5}', '\0', '\0'),
    (0x01D8, '\u{1D7}', '\0', '\0'),
    (0x01DA, '\u{1D9}', '\0', '\0'),
    (0x01DC, '\u{1DB}', '\0', '\0'),
    (0x01DD, '\u{18E}', '\0', '\0'),
    (0x01DF, '\u{1DE}', '\0', '\0'),
    (0x01E1, '\u{1E0}', '\0', '\0'),
    (0x01E3, '\u{1E2}', '\0', '\0'),
    (0x01E5, '\u{1E4}', '\0', '\0'),
    (0x01E7, '\u{1E6}', '\0', '\0'),
    (0x01E9, '\u{1E8}', '\0', '\0'),
    (0x01EB, '\u{1EA}', '\0', '\0'),
    (0x01ED, '\u{1EC}', '\0', '\0'),
    (0x01EF, '\u{1EE}', '\0', '\0'),
    (0x01F0, '\u{4A}', '\u{30C}', '\0'),
    (0x01F1, '\u{1F2}', '\0', '\0'),
    (0x01F3, '\u{1F2}', '\0', '\0'),
    (0x01F5, '\u{1F4}', '\0', '\0'),
    (0x01F9, '\u{1F8}', '\0', '\0'),
    (0x01FB, '\u{1FA}', '\0', '\0'),
    (0x01FD, '\u{1FC}', '\0', '\0'),
    (0x01FF, '\u{1FE}', '\0', '\0'),
    (0x0201, '\u{200}', '\0', '\0'),
    (0x0203, '\u{202}', '\0', '\0'),
    (0x0205, '\u{204}', '\0', '\0'),
    (0x0207, '\u{206}', '\0', '\0'),
    (0x0209, '\u{208}', '\0', '\0'),
    (0x020B, '\u{20A}', '\0', '\0'),
    (0x020D, '\u{20C}', '\0', '\0'),
    (0x020F, '\u{20E}', '\0', '\0'),
    (0x0211, '\u{210}', '\0', '\0'),
    (0x0213, '\u{212}', '\0', '\0'),
    (0x0215, '\u{214}', '\0', '\0'),
    (0x0217, '\u{216}', '\0', '\0'),
    (0x0219, '\u{218}', '\0', '\0'),
    (0x021B, '\u{21A}', '\0', '\0'),
    (0x021D, '\u{21C}', '\0', '\0'),
    (0x021F, '\u{21E}', '\0', '\0'),
    (0x0223, '\u{222}', '\0', '\0'),
    (0x0225, '\u{224}', '\0', '\0'),
    (0x0227, '\u{226}', '\0', '\0'),
    (0x0229, '\u{228}', '\0', '\0'),
    (0x022B, '\u{22A}', '\0', '\0'),
    (0x022D, '\u{22C}', '\0', '\0'),
    (0x022F, '\u{22E}', '\0', '\0'),
    (0x0231, '\u{230}', '\0', '\0'),
    (0x0233, '\u{232}', '\0', '\0'),
    (0x023C, '\u{23B}', '\0', '\0'),
    (0x023F, '\u{2C7E}', '\0', '\0'),
    (0x0240, '\u{2C7F}', '\0', '\0'),
    (0x0242, '\u{241}', '\0', '\0'),
    (0x0247, '\u{246}', '\0', '\0'),
    (0x0249, '\u{248}', '\0', '\0'),
    (0x024B, '\u{24A}', '\0', '\0'),
    (0x024D, '\u{24C}', '\0', '\0'),
    (0x024F, '\u{24E}', '\0', '\0'),
    (0x0250, '\u{2C6F}', '\0', '\0'),
    (0x0251, '\u{2C6D}', '\0', '\0'),
    (0x0252, '\u{2C70}', '\0', '\0'),
    (0x0253, '\u{181}', '\0', '\0'),
    (0x0254, '\u{186}', '\0', '\0'),
    (0x0256, '\u{189}', '\0', '\0'),
    (0x0257, '\u{18A}', '\0', '\0'),
    (0x0259, '\u{18F}', '\0', '\0'),
    (0x025B, '\u{190}', '\0', '\0'),
    (0x025C, '\u{A7AB}', '\0', '\0'),
    (0x0260, '\u{193}', '\0', '\0'),
    (0x0261, '\u{A7AC}', '\0', '\0'),
    (0x0263, '\u{194}', '\0', '\0'),
    (0x0265, '\u{A78D}', '\0', '\0'),
    (0x0266, '\u{A7AA}', '\0', '\0'),
    (0x0268, '\u{197}', '\0', '\0'),
    (0x0269, '\u{196}', '\0', '\0'),
    (0x026A, '\u{A7AE}', '\0', '\0'),
    (0x026B, '\u{2C62}', '\0', '\0'),
    (0x026C, '\u{A7AD}', '\0', '\0'),
    (0x026F, '\u{19C}', '\0', '\0'),
    (0x0271, '\u{2C6E}', '\0', '\0'),
    (0x0272, '\u{19D}', '\0', '\0'),
    (0x0275, '\u{19F}', '\0', '\0'),
    (0x027D, '\u{2C64}', '\0', '\0'),
    (0x0280, '\u{1A6}', '\0', '\0'),
    (0x0282, '\u{A7C5}', '\0', '\0'),
    (0x0283, '\u{1A9}', '\0', '\0'),
    (0x0287, '\u{A7B1}', '\0', '\0'),
    (0x0288, '\u{1AE}', '\0', '\0'),
    (0x0289, '\u{244}', '\0', '\0'),
    (0x028A, '\u{1B1}', '\0', '\0'),
    (0x028B, '\u{1B2}', '\0', '\0'),
    (0x028C, '\u{245}', '\0', '\0'),
    (0x0292, '\u{1B7}', '\0', '\0'),
    (0x029D, '\u{A7B2}', '\0', '\0'),
    (0x029E, '\u{A7B0}', '\0', '\0'),
    (0x0345, '\u{399}', '\0', '\0'),
    (0x0371, '\u{370}', '\0', '\0'),
    (0x0373, '\u{372}', '\0', '\0'),
    (0x0377, '\u{376}', '\0', '\0'),
    (0x037B, '\u{3FD}', '\0', '\0'),
    (0x037C, '\u{3FE}', '\0', '\0'),
    (0x037D, '\u{3FF}', '\0', '\0'),
    (0x0390, '\u{399}', '\u{308}', '\u{301}'),
    (0x03AC, '\u{386}', '\0', '\0'),
    (0x03AD, '\u{388}', '\0', '\0'),
    (0x03AE, '\u{389}', '\0', '\0'),
    (0x03AF, '\u{38A}', '\0', '\0'),
    (0x03B0, '\u{3A5}', '\u{308}', '\u{301}'),
    (0x03B1, '\u{391}', '\0', '\0'),
    (0x03B2, '\u{392}', '\0', '\0'),
    (0x03B3, '\u{393}', '\0', '\0'),
    (0x03B4, '\u{394}', '\0', '\0'),
    (0x03B5, '\u{395}', '\0', '\0'),
    (0x03B6, '\u{396}', '\0', '\0'),
    (0x03B7, '\u{397}', '\0', '\0'),
    (0x03B8, '\u{398}', '\0', '\0'),
    (0x03B9, '\u{399}', '\0', '\0'),
    (0x03BA, '\u{39A}', '\0', '\0'),
    (0x03BB, '\u{39B}', '\0', '\0'),
    (0x03BC, '\u{39C}', '\0', '\0'),
    (0x03BD, '\u{39D}', '\0', '\0'),
    (0x03BE, '\u{39E}', '\0', '\0'),
    (0x03BF, '\u{39F}', '\0', '\0'),
    (0x03C0, '\u{3A0}', '\0', '\0'),
    (0x03C1, '\u{3A1}', '\0', '\0'),
    (0x03C2, '\u{3A3}', '\0', '\0'),
    (0x03C3, '\u{3A3}', '\0', '\0'),
    (0x03C4, '\u{3A4}', '\0', '\0'),
    (0x03C5, '\u{3A5}', '\0', '\0'),
    (0x03C6, '\u{3A6}', '\0', '\0'),
    (0x03C7, '\u{3A7}', '\0', '\0'),
    (0x03C8, '\u{3A8}', '\0', '\0'),
    (0x03C9, '\u{3A9}', '\0', '\0'),
    (0x03CA, '\u{3AA}', '\0', '\0'),
    (0x03CB, '\u{3AB}', '\0', '\0'),
    (0x03CC, '\u{38C}', '\0', '\0'),
    (0x03CD, '\u{38E}', '\0', '\0'),
    (0x03CE, '\u{38F}', '\0', '\0'),
    (0x03D0, '\u{392}', '\0', '\0'),
    (0x03D1, '\u{398}', '\0', '\0'),
    (0x03D5, '\u{3A6}', '\0', '\0'),
    (0x03D6, '\u{3A0}', '\0', '\0'),
    (0x03D7, '\u{3CF}', '\0', '\0'),
    (0x03D9, '\u{3D8}', '\0', '\0'),
    (0x03DB, '\u{3DA}', '\0', '\0'),
    (0x03DD, '\u{3DC}', '\0', '\0'),
    (0x03DF, '\u{3DE}', '\0', '\0'),
    (0x03E1, '\u{3E0}', '\0', '\0'),
    (0x03E3, '\u{3E2}', '\0', '\0'),
    (0x03E5, '\u{3E4}', '\0', '\0'),
    (0x03E7, '\u{3E6}', '\0', '\0'),
    (0x03E9, '\u{3E8}', '\0', '\0'),
    (0x03EB, '\u{3EA}', '\0', '\0'),
    (0x03ED, '\u{3EC}', '\0', '\0'),
    (0x03EF, '\u{3EE}', '\0', '\0'),
    (0x03F0, '\u{39A}', '\0', '\0'),
    (0x03F1, '\u{3A1}', '\0', '\0'),
    (0x03F2, '\u{3F9}', '\0', '\0'),
    (0x03F3, '\u{37F}', '\0', '\0'),
    (0x03F5, '\u{395}', '\0', '\0'),
    (0x03F8, '\u{3F7}', '\0', '\0'),
    (0x03FB, '\u{3FA}', '\0', '\0'),
    (0x0430, '\u{410}', '\0', '\0'),
    (0x0431, '\u{411}', '\0', '\0'),
    (0x0432, '\u{412}', '\0', '\0'),
    (0x0433, '\u{413}', '\0', '\0'),
    (0x0434, '\u{414}', '\0', '\0'),
    (0x0435, '\u{415}', '\0', '\0'),
    (0x0436, '\u{416}', '\0', '\0'),
    (0x0437, '\u{417}', '\0', '\0'),
    (0x0438, '\u{418}', '\0', '\0'),
    (0x0439, '\u{419}', '\0', '\0'),
    (0x043A, '\u{41A}', '\0', '\0'),
    (0x043B, '\u{41B}', '\0', '\0'),
    (0x043C, '\u{41C}', '\0', '\0'),
    (0x043D, '\u{41D}', '\0', '\0'),
    (0x043E, '\u{41E}', '\0', '\0'),
    (0x043F, '\u{41F}', '\0', '\0'),
    (0x0440, '\u{420}', '\0', '\0'),
    (0x0441, '\u{421}', '\0', '\0'),
    (0x0442, '\u{422}', '\0', '\0'),
    (0x0443, '\u{423}', '\0', '\0'),
    (0x0444, '\u{424}', '\0', '\0'),
    (0x0445, '\u{425}', '\0', '\0'),
    (0x0446, '\u{426}', '\0', '\0'),
    (0x0447, '\u{427}', '\0', '\0'),
    (0x0448, '\u{428}', '\0', '\0'),
    (0x0449, '\u{429}', '\0', '\0'),
    (0x044A, '\u{42A}', '\0', '\0'),
    (0x044B, '\u{42B}', '\0', '\0'),
    (0x044C, '\u{42C}', '\0', '\0'),
    (0x044D, '\u{42D}', '\0', '\0'),
    (0x044E, '\u{42E}', '\0', '\0'),
    (0x044F, '\u{42F}', '\0', '\0'),
    (0x0450, '\u{400}', '\0', '\0'),
    (0x0451, '\u{401}', '\0', '\0'),
    (0x0452, '\u{402}', '\0', '\0'),
    (0x0453, '\u{403}', '\0', '\0'),
    (0x0454, '\u{404}', '\0', '\0'),
    (0x0455, '\u{405}', '\0', '\0'),
    (0x0456, '\u{406}', '\0', '\0'),
    (0x0457, '\u{407}', '\0', '\0'),
    (0x0458, '\u{408}', '\0', '\0'),
    (0x0459, '\u{409}', '\0', '\0'),
    (0x045A, '\u{40A}', '\0', '\0'),
    (0x045B, '\u{40B}', '\0', '\0'),
    (0x045C, '\u{40C}', '\0', '\0'),
    (0x045D, '\u{40D}', '\0', '\0'),
    (0x045E, '\u{40E}', '\0', '\0'),
    (0x045F, '\u{40F}', '\0', '\0'),
    (0x0461, '\u{460}', '\0', '\0'),
    (0x0463, '\u{462}', '\0', '\0'),
    (0x0465, '\u{464}', '\0', '\0'),
    (0x0467, '\u{466}', '\0', '\0'),
    (0x0469, '\u{468}', '\0', '\0'),
    (0x046B, '\u{46A}', '\0', '\0'),
    (0x046D, '\u{46C}', '\0', '\0'),
    (0x046F, '\u{46E}', '\0', '\0'),
    (0x0471, '\u{470}', '\0', '\0'),
    (0x0473, '\u{472}', '\0', '\0'),
    (0x0475, '\u{474}', '\0', '\0'),
    (0x0477, '\u{476}', '\0', '\0'),
    (0x0479, '\u{478}', '\0', '\0'),
    (0x047B, '\u{47A}', '\0', '\0'),
    (0x047D, '\u{47C}', '\0', '\0'),
    (0x047F, '\u{47E}', '\0', '\0'),
    (0x0481, '\u{480}', '\0', '\0'),
    (0x048B, '\u{48A}', '\0', '\0'),
    (0x048D, '\u{48C}', '\0', '\0'),
    (0x048F, '\u{48E}', '\0', '\0'),
    (0x0491, '\u{490}', '\0', '\0'),
    (0x0493, '\u{492}', '\0', '\0'),
    (0x0495, '\u{494}', '\0', '\0'),
    (0x0497, '\u{496}', '\0', '\0'),
    (0x0499, '\u{498}', '\0', '\0'),
    (0x049B, '\u{49A}', '\0', '\0'),
    (0x049D, '\u{49C}', '\0', '\0'),
    (0x049F, '\u{49E}', '\0', '\0'),
    (0x04A1, '\u{4A0}', '\0', '\0'),
    (0x04A3, '\u{4A2}', '\0', '\0'),
    (0x04A5, '\u{4A4}', '\0', '\0'),
    (0x04A7, '\u{4A6}', '\0', '\0'),
    (0x04A9, '\u{4A8}', '\0', '\0'),
    (0x04AB, '\u{4AA}', '\0', '\0'),
    (0x04AD, '\u{4AC}', '\0', '\0'),
    (0x04AF, '\u{4AE}', '\0', '\0'),
    (0x04B1, '\u{4B0}', '\0', '\0'),
    (0x04B3, '\u{4B2}', '\0', '\0'),
    (0x04B5, '\u{4B4}', '\0', '\0'),
    (0x04B7, '\u{4B6}', '\0', '\0'),
    (0x04B9, '\u{4B8}', '\0', '\0'),
    (0x04BB, '\u{4BA}', '\0', '\0'),
    (0x04BD, '\u{4BC}', '\0', '\0'),
    (0x04BF, '\u{4BE}', '\0', '\0'),
    (0x04C2, '\u{4C1}', '\0', '\0'),
    (0x04C4, '\u{4C3}', '\0', '\0'),
    (0x04C6, '\u{4C5}', '\0', '\0'),
    (0x04C8, '\u{4C7}', '\0', '\0'),
    (0x04CA, '\u{4C9}', '\0', '\0'),
    (0x04CC, '\u{4CB}', '\0', '\0'),
    (0x04CE, '\u{4CD}', '\0', '\0'),
    (0x04CF, '\u{4C0}', '\0', '\0'),
    (0x04D1, '\u{4D0}', '\0', '\0'),
    (0x04D3, '\u{4D2}', '\0', '\0'),
    (0x04D5, '\u{4D4}', '\0', '\0'),
    (0x04D7, '\u{4D6}', '\0', '\0'),
    (0x04D9, '\u{4D8}', '\0', '\0'),
    (0x04DB, '\u{4DA}', '\0', '\0'),
    (0x04DD, '\u{4DC}', '\0', '\0'),
    (0x04DF, '\u{4DE}', '\0', '\0'),
    (0x04E1, '\u{4E0}', '\0', '\0'),
    (0x04E3, '\u{4E2}', '\0', '\0'),
    (0x04E5, '\u{4E4}', '\0', '\0'),
    (0x04E7, '\u{4E6}', '\0', '\0'),
    (0x04E9, '\u{4E8}', '\0', '\0'),
    (0x04EB, '\u{4EA}', '\0', '\0'),
    (0x04ED, '\u{4EC}', '\0', '\0'),
    (0x04EF, '\u{4EE}', '\0', '\0'),
    (0x04F1, '\u{4F0}', '\0', '\0'),
    (0x04F3, '\u{4F2}', '\0', '\0'),
    (0x04F5, '\u{4F4}', '\0', '\0'),
    (0x04F7, '\u{4F6}', '\0', '\0'),
    (0x04F9, '\u{4F8}', '\0', '\0'),
    (0x04FB, '\u{4FA}', '\0', '\0'),
    (0x04FD, '\u{4FC}', '\0', '\0'),
    (0x04FF, '\u{4FE}', '\0', '\0'),
    (0x0501, '\u{500}', '\0', '\0'),
    (0x0503, '\u{502}', '\0', '\0'),
    (0x0505, '\u{504}', '\0', '\0'),
    (0x0507, '\u{506}', '\0', '\0'),
    (0x0509, '\u{508}', '\0', '\0'),
    (0x050B, '\u{50A}', '\0', '\0'),
    (0x050D, '\u{50C}', '\0', '\0'),
    (0x050F, '\u{50E}', '\0', '\0'),
    (0x0511, '\u{510}', '\0', '\0'),
    (0x0513, '\u{512}', '\0', '\0'),
    (0x0515, '\u{514}', '\0', '\0'),
    (0x0517, '\u{516}', '\0', '\0'),
    (0x0519, '\u{518}', '\0', '\0'),
    (0x051B, '\u{51A}', '\0', '\0'),
    (0x051D, '\u{51C}', '\0', '\0'),
    (0x051F, '\u{51E}', '\0', '\0'),
    (0x0521, '\u{520}', '\0', '\0'),
    (0x0523, '\u{522}', '\0', '\0'),
    (0x0525, '\u{524}', '\0', '\0'),
    (0x0527, '\u{526}', '\0', '\0'),
    (0x0529, '\u{528}', '\0', '\0'),
    (0x052B, '\u{52A}', '\0', '\0'),
    (0x052D, '\u{52C}', '\0', '\0'),
    (0x052F, '\u{52E}', '\0', '\0'),
    (0x0561, '\u{531}', '\0', '\0'),
    (0x0562, '\u{532}', '\0', '\0'),
    (0x0563, '\u{533}', '\0', '\0'),
    (0x0564, '\u{534}', '\0', '\0'),
    (0x0565, '\u{535}', '\0', '\0'),
    (0x0566, '\u{536}', '\0', '\0'),
    (0x0567, '\u{537}', '\0', '\0'),
    (0x0568, '\u{538}', '\0', '\0'),
    (0x0569, '\u{539}', '\0', '\0'),
    (0x056A, '\u{53A}', '\0', '\0'),
    (0x056B, '\u{53B}', '\0', '\0'),
    (0x056C, '\u{53C}', '\0', '\0'),
    (0x056D, '\u{53D}', '\0', '\0'),
    (0x056E, '\u{53E}', '\0', '\0'),
    (0x056F, '\u{53F}', '\0', '\0'),
    (0x0570, '\u{540}', '\0', '\0'),
    (0x0571, '\u{541}', '\0', '\0'),
    (0x0572, '\u{542}', '\0', '\0'),
    (0x0573, '\u{543}', '\0', '\0'),
    (0x0574, '\u{544}', '\0', '\0'),
    (0x0575, '\u{545}', '\0', '\0'),
    (0x0576, '\u{546}', '\0', '\0'),
    (0x0577, '\u{547}', '\0', '\0'),
    (0x0578, '\u{548}', '\0', '\0'),
    (0x0579, '\u{549}', '\0', '\0'),
    (0x057A, '\u{54A}', '\0', '\0'),
    (0x057B, '\u{54B}', '\0', '\0'),
    (0x057C, '\u{54C}', '\0', '\0'),
    (0x057D, '\u{54D}', '\0', '\0'),
    (0x057E, '\u{54E}', '\0', '\0'),
    (0x057F, '\u{54F}', '\0', '\0'),
    (0x0580, '\u{550}', '\0', '\0'),
    (0x0581, '\u{551}', '\0', '\0'),
    (0x0582, '\u{552}', '\0', '\0'),
    (0x0583, '\u{553}', '\0', '\0'),
    (0x0584, '\u{554}', '\0', '\0'),
    (0x0585, '\u{555}', '\0', '\0'),
    (0x0586, '\u{556}', '\0', '\0'),
    (0x0587, '\u{535}', '\u{582}', '\0'),
    (0x13F8, '\u{13F0}', '\0', '\0'),
    (0x13F9, '\u{13F1}', '\0', '\0'),
    (0x13FA, '\u{13F2}', '\0', '\0'),
    (0x13FB, '\u{13F3}', '\0', '\0'),
    (0x13FC, '\u{13F4}', '\0', '\0'),
    (0x13FD, '\u{13F5}', '\0', '\0'),
    (0x1C80, '\u{412}', '\0', '\0'),
    (0x1C81, '\u{414}', '\0', '\0'),
    (0x1C82, '\u{41E}', '\0', '\0'),
    (0x1C83, '\u{421}', '\0', '\0'),
    (0x1C84, '\u{422}', '\0', '\0'),
    (0x1C85, '\u{422}', '\0', '\0'),
    (0x1C86, '\u{42A}', '\0', '\0'),
    (0x1C87, '\u{462}', '\0', '\0'),
    (0x1C88, '\u{A64A}', '\0', '\0'),
    (0x1D79, '\u{A77D}', '\0', '\0'),
    (0x1D7D, '\u{2C63}', '\0', '\0'),
    (0x1D8E, '\u{A7C6}', '\0', '\0'),
    (0x1E01, '\u{1E00}', '\0', '\0'),
    (0x1E03, '\u{1E02}', '\0', '\0'),
    (0x1E05, '\u{1E04}', '\0', '\0'),
    (0x1E07, '\u{1E06}', '\0', '\0'),
    (0x1E09, '\u{1E08}', '\0', '\0'),
    (0x1E0B, '\u{1E0A}', '\0', '\0'),
    (0x1E0D, '\u{1E0C}', '\0', '\0'),
    (0x1E0F, '\u{1E0E}', '\0', '\0'),
    (0x1E11, '\u{1E10}', '\0', '\0'),
    (0x1E13, '\u{1E12}', '\0', '\0'),
    (0x1E15, '\u{1E14}', '\0', '\0'),
    (0x1E17, '\u{1E16}', '\0', '\0'),
    (0x1E19, '\u{1E18}', '\0', '\0'),
    (0x1E1B, '\u{1E1A}', '\0', '\0'),
    (0x1E1D, '\u{1E1C}', '\0', '\0'),
    (0x1E1F, '\u{1E1E}', '\0', '\0'),
    (0x1E21, '\u{1E20}', '\0', '\0'),
    (0x1E23, '\u{1E22}', '\0', '\0'),
    (0x1E25, '\u{1E24}', '\0', '\0'),
    (0x1E27, '\u{1E26}', '\0', '\0'),
    (0x1E29, '\u{1E28}', '\0', '\0'),
    (0x1E2B, '\u{1E2A}', '\0', '\0'),
    (0x1E2D, '\u{1E2C}', '\0', '\0'),
    (0x1E2F, '\u{1E2E}', '\0', '\0'),
    (0x1E31, '\u{1E30}', '\0', '\0'),
    (0x1E33, '\u{1E32}', '\0', '\0'),
    (0x1E35, '\u{1E34}', '\0', '\0'),
    (0x1E37, '\u{1E36}', '\0', '\0'),
    (0x1E39, '\u{1E38}', '\0', '\0'),
    (0x1E3B, '\u{1E3A}', '\0', '\0'),
    (0x1E3D, '\u{1E3C}', '\0', '\0'),
    (0x1E3F, '\u{1E3E}', '\0', '\0'),
    (0x1E41, '\u{1E40}', '\0', '\0'),
    (0x1E43, '\u{1E42}', '\0', '\0'),
    (0x1E45, '\u{1E44}', '\0', '\0'),
    (0x1E47, '\u{1E46}', '\0', '\0'),
    (0x1E49, '\u{1E48}', '\0', '\0'),
    (0x1E4B, '\u{1E4A}', '\0', '\0'),
    (0x1E4D, '\u{1E4C}', '\0', '\0'),
    (0x1E4F, '\u{1E4E}', '\0', '\0'),
    (0x1E51, '\u{1E50}', '\0', '\0'),
    (0x1E53, '\u{1E52}', '\0', '\0'),
    (0x1E55, '\u{1E54}', '\0', '\0'),
    (0x1E57, '\u{1E56}', '\0', '\0'),
    (0x1E59, '\u{1E58}', '\0', '\0'),
    (0x1E5B, '\u{1E5A}', '\0', '\0'),
    (0x1E5D, '\u{1E5C}', '\0', '\0'),
    (0x1E5F, '\u{1E5E}', '\0', '\0'),
    (0x1E61, '\u{1E60}', '\0', '\0'),
    (0x1E63, '\u{1E62}', '\0', '\0'),
    (0x1E65, '\u{1E64}', '\0', '\0'),
    (0x1E67, '\u{1E66}', '\0', '\0'),
    (0x1E69, '\u{1E68}', '\0', '\0'),
    (0x1E6B, '\u{1E6A}', '\0', '\0'),
    (0x1E6D, '\u{1E6C}', '\0', '\0'),
    (0x1E6F, '\u{1E6E}', '\0', '\0'),
    (0x1E71, '\u{1E70}', '\0', '\0'),
    (0x1E73, '\u{1E72}', '\0', '\0'),
    (0x1E75, '\u{1E74}', '\0', '\0'),
    (0x1E77, '\u{1E76}', '\0', '\0'),
    (0x1E79, '\u{1E78}', '\0', '\0'),
    (0x1E7B, '\u{1E7A}', '\0', '\0'),
    (0x1E7D, '\u{1E7C}', '\0', '\0'),
    (0x1E7F, '\u{1E7E}', '\0', '\0'),
    (0x1E81, '\u{1E80}', '\0', '\0'),
    (0x1E83, '\u{1E82}', '\0', '\0'),
    (0x1E85, '\u{1E84}', '\0', '\0'),
    (0x1E87, '\u{1E86}', '\0', '\0'),
    (0x1E89, '\u{1E88}', '\0', '\0'),
    (0x1E8B, '\u{1E8A}', '\0', '\0'),
    (0x1E8D, '\u{1E8C}', '\0', '\0'),
    (0x1E8F, '\u{1E8E}', '\0', '\0'),
    (0x1E91, '\u{1E90}', '\0', '\0'),
    (0x1E93, '\u{1E92}', '\0', '\0'),
    (0x1E95, '\u{1E94}', '\0', '\0'),
    (0x1E96, '\u{48}', '\u{331}', '\0'),
    (0x1E97, '\u{54}', '\u{308}', '\0'),
    (0x1E98, '\u{57}', '\u{30A}', '\0'),
    (0x1E99, '\u{59}', '\u{30A}', '\0'),
    (0x1E9A, '\u{41}', '\u{2BE}', '\0'),
    (0x1E9B, '\u{1E60}', '\0', '\0'),
    (0x1EA1, '\u{1EA0}', '\0', '\0'),
    (0x1EA3, '\u{1EA2}', '\0', '\0'),
    (0x1EA5, '\u{1EA4}', '\0', '\0'),
    (0x1EA7, '\u{1EA6}', '\0', '\0'),
    (0x1EA9, '\u{1EA8}', '\0', '\0'),
    (0x1EAB, '\u{1EAA}', '\0', '\0'),
    (0x1EAD, '\u{1EAC}', '\0', '\0'),
    (0x1EAF, '\u{1EAE}', '\0', '\0'),
    (0x1EB1, '\u{1EB0}', '\0', '\0'),
    (0x1EB3, '\u{1EB2}', '\0', '\0'),
    (0x1EB5, '\u{1EB4}', '\0', '\0'),
    (0x1EB7, '\u{1EB6}', '\0', '\0'),
    (0x1EB9, '\u{1EB8}', '\0', '\0'),
    (0x1EBB, '\u{1EBA}', '\0', '\0'),
    (0x1EBD, '\u{1EBC}', '\0', '\0'),
    (0x1EBF, '\u{1EBE}', '\0', '\0'),
    (0x1EC1, '\u{1EC0}', '\0', '\0'),
    (0x1EC3, '\u{1EC2}', '\0', '\0'),
    (0x1EC5, '\u{1EC4}', '\0', '\0'),
    (0x1EC7, '\u{1EC6}', '\0', '\0'),
    (0x1EC9, '\u{1EC8}', '\0', '\0'),
    (0x1ECB, '\u{1ECA}', '\0', '\0'),
    (0x1ECD, '\u{1ECC}', '\0', '\0'),
    (0x1ECF, '\u{1ECE}', '\0', '\0'),
    (0x1ED1, '\u{1ED0}', '\0', '\0'),
    (0x1ED3, '\u{1ED2}', '\0', '\0'),
    (0x1ED5, '\u{1ED4}', '\0', '\0'),
    (0x1ED7, '\u{1ED6}', '\0', '\0'),
    (0x1ED9, '\u{1ED8}', '\0', '\0'),
    (0x1EDB, '\u{1EDA}', '\0', '\0'),
    (0x1EDD, '\u{1EDC}', '\0', '\0'),
    (0x1EDF, '\u{1EDE}', '\0', '\0'),
    (0x1EE1, '\u{1EE0}', '\0', '\0'),
    (0x1EE3, '\u{1EE2}', '\0', '\0'),
    (0x1EE5, '\u{1EE4}', '\0', '\0'),
    (0x1EE7, '\u{1EE6}', '\0', '\0'),
    (0x1EE9, '\u{1EE8}', '\0', '\0'),
    (0x1EEB, '\u{1EEA}', '\0', '\0'),
    (0x1EED, '\u{1EEC}', '\0', '\0'),
    (0x1EEF, '\u{1EEE}', '\0', '\0'),
    (0x1EF1, '\u{1EF0}', '\0', '\0'),
    (0x1EF3, '\u{1EF2}', '\0', '\0'),
    (0x1EF5, '\u{1EF4}', '\0', '\0'),
    (0x1EF7, '\u{1EF6}', '\0', '\0'),
    (0x1EF9, '\u{1EF8}', '\0', '\0'),
    (0x1EFB, '\u{1EFA}', '\0', '\0'),
    (0x1EFD, '\u{1EFC}', '\0', '\0'),
    (0x1EFF, '\u{1EFE}', '\0', '\0'),
    (0x1F00, '\u{1F08}', '\0', '\0'),
    (0x1F01, '\u{1F09}', '\0', '\0'),
    (0x1F02, '\u{1F0A}', '\0', '\0'),
    (0x1F03, '\u{1F0B}', '\0', '\0'),
    (0x1F04, '\u{1F0C}', '\0', '\0'),
    (0x1F05, '\u{1F0D}', '\0', '\0'),
    (0x1F06, '\u{1F0E}', '\0', '\0'),
    (0x1F07, '\u{1F0F}', '\0', '\0'),
    (0x1F10, '\u{1F18}', '\0', '\0'),
    (0x1F11, '\u{1F19}', '\0', '\0'),
    (0x1F12, '\u{1F1A}', '\0', '\0'),
    (0x1F13, '\u{1F1B}', '\0', '\0'),
    (0x1F14, '\u{1F1C}', '\0', '\0'),
    (0x1F15, '\u{1F1D}', '\0', '\0'),
    (0x1F20, '\u{1F28}', '\0', '\0'),
    (0x1F21, '\u{1F29}', '\0', '\0'),
    (0x1F22, '\u{1F2A}', '\0', '\0'),
    (0x1F23, '\u{1F2B}', '\0', '\0'),
    (0x1F24, '\u{1F2C}', '\0', '\0'),
    (0x1F25, '\u{1F2D}', '\0', '\0'),
    (0x1F26, '\u{1F2E}', '\0', '\0'),
    (0x1F27, '\u{1F2F}', '\0', '\0'),
    (0x1F30, '\u{1F38}', '\0', '\0'),
    (0x1F31, '\u{1F39}', '\0', '\0'),
    (0x1F32, '\u{1F3A}', '\0', '\0'),
    (0x1F33, '\u{1F3B}', '\0', '\0'),
    (0x1F34, '\u{1F3C}', '\0', '\0'),
    (0x1F35, '\u{1F3D}', '\0', '\0'),
    (0x1F36, '\u{1F3E}', '\0', '\0'),
    (0x1F37, '\u{1F3F}', '\0', '\0'),
    (0x1F40, '\u{1F48}', '\0', '\0'),
    (0x1F41, '\u{1F49}', '\0', '\0'),
    (0x1F42, '\u{1F4A}', '\0', '\0'),
    (0x1F43, '\u{1F4B}', '\0', '\0'),
    (0x1F44, '\u{1F4C}', '\0', '\0'),
    (0x1F45, '\u{1F4D}', '\0', '\0'),
    (0x1F50, '\u{3A5}', '\u{313}', '\0'),
    (0x1F51, '\u{1F59}', '\0', '\0'),
    (0x1F52, '\u{3A5}', '\u{313}', '\u{300}'),
    (0x1F53, '\u{1F5B}', '\0', '\0'),
    (0x1F54, '\u{3A5}', '\u{313}', '\u{301}'),
    (0x1F55, '\u{1F5D}', '\0', '\0'),
    (0x1F56, '\u{3A5}', '\u{313}', '\u{342}'),
    (0x1F57, '\u{1F5F}', '\0', '\0'),
    (0x1F60, '\u{1F68}', '\0', '\0'),
    (0x1F61, '\u{1F69}', '\0', '\0'),
    (0x1F62, '\u{1F6A}', '\0', '\0'),
    (0x1F63, '\u{1F6B}', '\0', '\0'),
    (0x1F64, '\u{1F6C}', '\0', '\0'),
    (0x1F65, '\u{1F6D}', '\0', '\0'),
    (0x1F66, '\u{1F6E}', '\0', '\0'),
    (0x1F67, '\u{1F6F}', '\0', '\0'),
    (0x1F70, '\u{1FBA}', '\0', '\0'),
    (0x1F71, '\u{1FBB}', '\0', '\0'),
    (0x1F72, '\u{1FC8}', '\0', '\0'),
    (0x1F73, '\u{1FC9}', '\0', '\0'),
    (0x1F74, '\u{1FCA}', '\0', '\0'),
    (0x1F75, '\u{1FCB}', '\0', '\0'),
    (0x1F76, '\u{1FDA}', '\0', '\0'),
    (0x1F77, '\u{1FDB}', '\0', '\0'),
    (0x1F78, '\u{1FF8}', '\0', '\0'),
    (0x1F79, '\u{1FF9}', '\0', '\0'),
    (0x1F7A, '\u{1FEA}', '\0', '\0'),
    (0x1F7B, '\u{1FEB}', '\0', '\0'),
    (0x1F7C, '\u{1FFA}', '\0', '\0'),
    (0x1F7D, '\u{1FFB}', '\0', '\0'),
    (0x1F80, '\u{1F88}', '\0', '\0'),
    (0x1F81, '\u{1F89}', '\0', '\0'),
    (0x1F82, '\u{1F8A}', '\0', '\0'),
    (0x1F83, '\u{1F8B}', '\0', '\0'),
    (0x1F84, '\u{1F8C}', '\0', '\0'),
    (0x1F85, '\u{1F8D}', '\0', '\0'),
    (0x1F86, '\u{1F8E}', '\0', '\0'),
    (0x1F87, '\u{1F8F}', '\0', '\0'),
    (0x1F90, '\u{1F98}', '\0', '\0'),
    (0x1F91, '\u{1F99}', '\0', '\0'),
    (0x1F92, '\u{1F9A}', '\0', '\0'),
    (0x1F93, '\u{1F9B}', '\0', '\0'),
    (0x1F94, '\u{1F9C}', '\0', '\0'),
    (0x1F95, '\u{1F9D}', '\0', '\0'),
    (0x1F96, '\u{1F9E}', '\0', '\0'),
    (0x1F97, '\u{1F9F}', '\0', '\0'),
    (0x1FA0, '\u{1FA8}', '\0', '\0'),
    (0x1FA1, '\u{1FA9}', '\0', '\0'),
    (0x1FA2, '\u{1FAA}', '\0', '\0'),
    (0x1FA3, '\u{1FAB}', '\0', '\0'),
    (0x1FA4, '\u{1FAC}', '\0', '\0'),
    (0x1FA5, '\u{1FAD}', '\0', '\0'),
    (0x1FA6, '\u{1FAE}', '\0', '\0'),
    (0x1FA7, '\u{1FAF}', '\0', '\0'),
    (0x1FB0, '\u{1FB8}', '\0', '\0'),
    (0x1FB1, '\u{1FB9}', '\0', '\0'),
    (0x1FB2, '\u{1FBA}', '\u{345}', '\0'),
    (0x1FB3, '\u{1FBC}', '\0', '\0'),
    (0x1FB4, '\u{386}', '\u{345}', '\0'),
    (0x1FB6, '\u{391}', '\u{342}', '\0'),
    (0x1FB7, '\u{391}', '\u{342}', '\u{345}'),
    (0x1FBE, '\u{399}', '\0', '\0'),
    (0x1FC2, '\u{1FCA}', '\u{345}', '\0'),
    (0x1FC3, '\u{1FCC}', '\0', '\0'),
    (0x1FC4, '\u{389}', '\u{345}', '\0'),
    (0x1FC6, '\u{397}', '\u{342}', '\0'),
    (0x1FC7, '\u{397}', '\u{342}', '\u{345}'),
    (0x1FD0, '\u{1FD8}', '\0', '\0'),
    (0x1FD1, '\u{1FD9}', '\0', '\0'),
    (0x1FD2, '\u{399}', '\u{308}', '\u{300}'),
    (0x1FD3, '\u{399}', '\u{308}', '\u{301}'),
    (0x1FD6, '\u{399}', '\u{342}', '\0'),
    (0x1FD7, '\u{399}', '\u{308}', '\u{342}'),
    (0x1FE0, '\u{1FE8}', '\0', '\0'),
    (0x1FE1, '\u{1FE9}', '\0', '\0'),
    (0x1FE2, '\u{3A5}', '\u{308}', '\u{300}'),
    (0x1FE3, '\u{3A5}', '\u{308}', '\u{301}'),
    (0x1FE4, '\u{3A1}', '\u{313}', '\0'),
    (0x1FE5, '\u{1FEC}', '\0', '\0'),
    (0x1FE6, '\u{3A5}', '\u{342}', '\0'),
    (0x1FE7, '\u{3A5}', '\u{308}', '\u{342}'),
    (0x1FF2, '\u{1FFA}', '\u{345}', '\0'),
    (0x1FF3, '\u{1FFC}', '\0', '\0'),
    (0x1FF4, '\u{38F}', '\u{345}', '\0'),
    (0x1FF6, '\u{3A9}', '\u{342}', '\0'),
    (0x1FF7, '\u{3A9}', '\u{342}', '\u{345}'),
    (0x214E, '\u{2132}', '\0', '\0'),
    (0x2170, '\u{2160}', '\0', '\0'),
    (0x2171, '\u{2161}', '\0', '\0'),
    (0x2172, '\u{2162}', '\0', '\0'),
    (0x2173, '\u{2163}', '\0', '\0'),
    (0x2174, '\u{2164}', '\0', '\0'),
    (0x2175, '\u{2165}', '\0', '\0'),
    (0x2176, '\u{2166}', '\0', '\0'),
    (0x2177, '\u{2167}', '\0', '\0'),
    (0x2178, '\u{2168}', '\0', '\0'),
    (0x2179, '\u{2169}', '\0', '\0'),
    (0x217A, '\u{216A}', '\0', '\0'),
    (0x217B, '\u{216B}', '\0', '\0'),
    (0x217C, '\u{216C}', '\0', '\0'),
    (0x217D, '\u{216D}', '\0', '\0'),
    (0x217E, '\u{216E}', '\0', '\0'),
    (0x217F, '\u{216F}', '\0', '\0'),
    (0x2184, '\u{2183}', '\0', '\0'),
    (0x24D0, '\u{24B6}', '\0', '\0'),
    (0x24D1, '\u{24B7}', '\0', '\0'),
    (0x24D2, '\u{24B8}', '\0', '\0'),
    (0x24D3, '\u{24B9}', '\0', '\0'),
    (0x24D4, '\u{24BA}', '\0', '\0'),
    (0x24D5, '\u{24BB}', '\0', '\0'),
    (0x24D6, '\u{24BC}', '\0', '\0'),
    (0x24D7, '\u{24BD}', '\0', '\0'),
    (0x24D8, '\u{24BE}', '\0', '\0'),
    (0x24D9, '\u{24BF}', '\0', '\0'),
    (0x24DA, '\u{24C0}', '\0', '\0'),
    (0x24DB, '\u{24C1}', '\0', '\0'),
    (0x24DC, '\u{24C2}', '\0', '\0'),
    (0x24DD, '\u{24C3}', '\0', '\0'),
    (0x24DE, '\u{24C4}', '\0', '\0'),
    (0x24DF, '\u{24C5}', '\0', '\0'),
    (0x24E0, '\u{24C6}', '\0', '\0'),
    (0x24E1, '\u{24C7}', '\0', '\0'),
    (0x24E2, '\u{24C8}', '\0', '\0'),
    (0x24E3, '\u{24C9}', '\0', '\0'),
    (0x24E4, '\u{24CA}', '\0', '\0'),
    (0x24E5, '\u{24CB}', '\0', '\0'),
    (0x24E6, '\u{24CC}', '\0', '\0'),
    (0x24E7, '\u{24CD}', '\0', '\0'),
    (0x24E8, '\u{24CE}', '\0', '\0'),
    (0x24E9, '\u{24CF}', '\0', '\0'),
    (0x2C30, '\u{2C00}', '\0', '\0'),
    (0x2C31, '\u{2C01}', '\0', '\0'),
    (0x2C32, '\u{2C02}', '\0', '\0'),
    (0x2C33, '\u{2C03}', '\0', '\0'),
    (0x2C34, '\u{2C04}', '\0', '\0'),
    (0x2C35, '\u{2C05}', '\0', '\0'),
    (0x2C36, '\u{2C06}', '\0', '\0'),
    (0x2C37, '\u{2C07}', '\0', '\0'),
    (0x2C38, '\u{2C08}', '\0', '\0'),
    (0x2C39, '\u{2C09}', '\0', '\0'),
    (0x2C3A, '\u{2C0A}', '\0', '\0'),
    (0x2C3B, '\u{2C0B}', '\0', '\0'),
    (0x2C3C, '\u{2C0C}', '\0', '\0'),
    (0x2C3D, '\u{2C0D}', '\0', '\0'),
    (0x2C3E, '\u{2C0E}', '\0', '\0'),
    (0x2C3F, '\u{2C0F}', '\0', '\0'),
    (0x2C40, '\u{2C10}', '\0', '\0'),
    (0x2C41, '\u{2C11}', '\0', '\0'),
    (0x2C42, '\u{2C12}', '\0', '\0'),
    (0x2C43, '\u{2C13}', '\0', '\0'),
    (0x2C44, '\u{2C14}', '\0', '\0'),
    (0x2C45, '\u{2C15}', '\0', '\0'),
    (0x2C46, '\u{2C16}', '\0', '\0'),
    (0x2C47, '\u{2C17}', '\0', '\0'),
    (0x2C48, '\u{2C18}', '\0', '\0'),
    (0x2C49, '\u{2C19}', '\0', '\0'),
    (0x2C4A, '\u{2C1A}', '\0', '\0'),
    (0x2C4B, '\u{2C1B}', '\0', '\0'),
    (0x2C4C, '\u{2C1C}', '\0', '\0'),
    (0x2C4D, '\u{2C1D}', '\0', '\0'),
    (0x2C4E, '\u{2C1E}', '\0', '\0'),
    (0x2C4F, '\u{2C1F}', '\0', '\0'),
    (0x2C50, '\u{2C20}', '\0', '\0'),
    (0x2C51, '\u{2C21}', '\0', '\0'),
    (0x2C52, '\u{2C22}', '\0', '\0'),
    (0x2C53, '\u{2C23}', '\0', '\0'),
    (0x2C54, '\u{2C24}', '\0', '\0'),
    (0x2C55, '\u{2C25}', '\0', '\0'),
    (0x2C56, '\u{2C26}', '\0', '\0'),
    (0x2C57, '\u{2C27}', '\0', '\0'),
    (0x2C58, '\u{2C28}', '\0', '\0'),
    (0x2C59, '\u{2C29}', '\0', '\0'),
    (0x2C5A, '\u{2C2A}', '\0', '\0'),
    (0x2C5B, '\u{2C2B}', '\0', '\0'),
    (0x2C5C, '\u{2C2C}', '\0', '\0'),
    (0x2C5D, '\u{2C2D}', '\0', '\0'),
    (0x2C5E, '\u{2C2E}', '\0', '\0'),
    (0x2C5F, '\u{2C2F}', '\0', '\0'),
    (0x2C61, '\u{2C60}', '\0', '\0'),
    (0x2C65, '\u{23A}', '\0', '\0'),
    (0x2C66, '\u{23E}', '\0', '\0'),
    (0x2C68, '\u{2C67}', '\0', '\0'),
    (0x2C6A, '\u{2C69}', '\0', '\0'),
    (0x2C6C, '\u{2C6B}', '\0', '\0'),
    (0x2C73, '\u{2C72}', '\0', '\0'),
    (0x2C76, '\u{2C75}', '\0', '\0'),
    (0x2C81, '\u{2C80}', '\0', '\0'),
    (0x2C83, '\u{2C82}', '\0', '\0'),
    (0x2C85, '\u{2C84}', '\0', '\0'),
    (0x2C87, '\u{2C86}', '\0', '\0'),
    (0x2C89, '\u{2C88}', '\0', '\0'),
    (0x2C8B, '\u{2C8A}', '\0', '\0'),
    (0x2C8D, '\u{2C8C}', '\0', '\0'),
    (0x2C8F, '\u{2C8E}', '\0', '\0'),
    (0x2C91, '\u{2C90}', '\0', '\0'),
    (0x2C93, '\u{2C92}', '\0', '\0'),
    (0x2C95, '\u{2C94}', '\0', '\0'),
    (0x2C97, '\u{2C96}', '\0', '\0'),
    (0x2C99, '\u{2C98}', '\0', '\0'),
    (0x2C9B, '\u{2C9A}', '\0', '\0'),
    (0x2C9D, '\u{2C9C}', '\0', '\0'),
    (0x2C9F, '\u{2C9E}', '\0', '\0'),
    (0x2CA1, '\u{2CA0}', '\0', '\0'),
    (0x2CA3, '\u{2CA2}', '\0', '\0'),
    (0x2CA5, '\u{2CA4}', '\0', '\0'),
    (0x2CA7, '\u{2CA6}', '\0', '\0'),
    (0x2CA9, '\u{2CA8}', '\0', '\0'),
    (0x2CAB, '\u{2CAA}', '\0', '\0'),
    (0x2CAD, '\u{2CAC}', '\0', '\0'),
    (0x2CAF, '\u{2CAE}', '\0', '\0'),
    (0x2CB1, '\u{2CB0}', '\0', '\0'),
    (0x2CB3, '\u{2CB2}', '\0', '\0'),
    (0x2CB5, '\u{2CB4}', '\0', '\0'),
    (0x2CB7, '\u{2CB6}', '\0', '\0'),
    (0x2CB9, '\u{2CB8}', '\0', '\0'),
    (0x2CBB, '\u{2CBA}', '\0', '\0'),
    (0x2CBD, '\u{2CBC}', '\0', '\0'),
    (0x2CBF, '\u{2CBE}', '\0', '\0'),
    (0x2CC1, '\u{2CC0}', '\0', '\0'),
    (0x2CC3, '\u{2CC2}', '\0', '\0'),
    (0x2CC5, '\u{2CC4}', '\0', '\0'),
    (0x2CC7, '\u{2CC6}', '\0', '\0'),
    (0x2CC9, '\u{2CC8}', '\0', '\0'),
    (0x2CCB, '\u{2CCA}', '\0', '\0'),
    (0x2CCD, '\u{2CCC}', '\0', '\0'),
    (0x2CCF, '\u{2CCE}', '\0', '\0'),
    (0x2CD1, '\u{2CD0}', '\0', '\0'),
    (0x2CD3, '\u{2CD2}', '\0', '\0'),
    (0x2CD5, '\u{2CD4}', '\0', '\0'),
    (0x2CD7, '\u{2CD6}', '\0', '\0'),
    (0x2CD9, '\u{2CD8}', '\0', '\0'),
    (0x2CDB, '\u{2CDA}', '\0', '\0'),
    (0x2CDD, '\u{2CDC}', '\0', '\0'),
    (0x2CDF, '\u{2CDE}', '\0', '\0'),
    (0x2CE1, '\u{2CE0}', '\0', '\0'),
    (0x2CE3, '\u{2CE2}', '\0', '\0'),
    (0x2CEC, '\u{2CEB}', '\0', '\0'),
    (0x2CEE, '\u{2CED}', '\0', '\0'),
    (0x2CF3, '\u{2CF2}', '\0', '\0'),
    (0x2D00, '\u{10A0}', '\0', '\0'),
    (0x2D01, '\u{10A1}', '\0', '\0'),
    (0x2D02, '\u{10A2}', '\0', '\0'),
    (0x2D03, '\u{10A3}', '\0', '\0'),
    (0x2D04, '\u{10A4}', '\0', '\0'),
    (0x2D05, '\u{10A5}', '\0', '\0'),
    (0x2D06, '\u{10A6}', '\0', '\0'),
    (0x2D07, '\u{10A7}', '\0', '\0'),
    (0x2D08, '\u{10A8}', '\0', '\0'),
    (0x2D09, '\u{10A9}', '\0', '\0'),
    (0x2D0A, '\u{10AA}', '\0', '\0'),
    (0x2D0B, '\u{10AB}', '\0', '\0'),
    (0x2D0C, '\u{10AC}', '\0', '\0'),
    (0x2D0D, '\u{10AD}', '\0', '\0'),
    (0x2D0E, '\u{10AE}', '\0', '\0'),
    (0x2D0F, '\u{10AF}', '\0', '\0'),
    (0x2D10, '\u{10B0}', '\0', '\0'),
    (0x2D11, '\u{10B1}', '\0', '\0'),
    (0x2D12, '\u{10B2}', '\0', '\0'),
    (0x2D13, '\u{10B3}', '\0', '\0'),
    (0x2D14, '\u{10B4}', '\0', '\0'),
    (0x2D15, '\u{10B5}', '\0', '\0'),
    (0x2D16, '\u{10B6}', '\0', '\0'),
    (0x2D17, '\u{10B7}', '\0', '\0'),
    (0x2D18, '\u{10B8}', '\0', '\0'),
    (0x2D19, '\u{10B9}', '\0', '\0'),
    (0x2D1A, '\u{10BA}', '\0', '\0'),
    (0x2D1B, '\u{10BB}', '\0', '\0'),
    (0x2D1C, '\u{10BC}', '\0', '\0'),
    (0x2D1D, '\u{10BD}', '\0', '\0'),
    (0x2D1E, '\u{10BE}', '\0', '\0'),
    (0x2D1F, '\u{10BF}', '\0', '\0'),
    (0x2D20, '\u{10C0}', '\0', '\0'),
    (0x2D21, '\u{10C1}', '\0', '\0'),
    (0x2D22, '\u{10C2}', '\0', '\0'),
    (0x2D23, '\u{10C3}', '\0', '\0'),
    (0x2D24, '\u{10C4}', '\0', '\0'),
    (0x2D25, '\u{10C5}', '\0', '\0'),
    (0x2D27, '\u{10C7}', '\0', '\0'),
    (0x2D2D, '\u{10CD}', '\0', '\0'),
    (0xA641, '\u{A640}', '\0', '\0'),
    (0xA643, '\u{A642}', '\0', '\0'),
    (0xA645, '\u{A644}', '\0', '\0'),
    (0xA647, '\u{A646}', '\0', '\0'),
    (0xA649, '\u{A648}', '\0', '\0'),
    (0xA64B, '\u{A64A}', '\0', '\0'),
    (0xA64D, '\u{A64C}', '\0', '\0'),
    (0xA64F, '\u{A64E}', '\0', '\0'),
    (0xA651, '\u{A650}', '\0', '\0'),
    (0xA653, '\u{A652}', '\0', '\0'),
    (0xA655, '\u{A654}', '\0', '\0'),
    (0xA657, '\u{A656}', '\0', '\0'),
    (0xA659, '\u{A658}', '\0', '\0'),
    (0xA65B, '\u{A65A}', '\0', '\0'),
    (0xA65D, '\u{A65C}', '\0', '\0'),
    (0xA65F, '\u{A65E}', '\0', '\0'),
    (0xA661, '\u{A660}', '\0', '\0'),
    (0xA663, '\u{A662}', '\0', '\0'),
    (0xA665, '\u{A664}', '\0', '\0'),
    (0xA667, '\u{A666}', '\0', '\0'),
    (0xA669, '\u{A668}', '\0', '\0'),
    (0xA66B, '\u{A66A}', '\0', '\0'),
    (0xA66D, '\u{A66C}', '\0', '\0'),
    (0xA681, '\u{A680}', '\0', '\0'),
    (0xA683, '\u{A682}', '\0', '\0'),
    (0xA685, '\u{A684}', '\0', '\0'),
    (0xA687, '\u{A686}', '\0', '\0'),
    (0xA689, '\u{A688}', '\0', '\0'),
    (0xA68B, '\u{A68A}', '\0', '\0'),
    (0xA68D, '\u{A68C}', '\0', '\0'),
    (0xA68F, '\u{A68E}', '\0', '\0'),
    (0xA691, '\u{A690}', '\0', '\0'),
    (0xA693, '\u{A692}', '\0', '\0'),
    (0xA695, '\u{A694}', '\0', '\0'),
    (0xA697, '\u{A696}', '\0', '\0'),
    (0xA699, '\u{A698}', '\0', '\0'),
    (0xA69B, '\u{A69A}', '\0', '\0'),
    (0xA723, '\u{A722}', '\0', '\0'),
    (0xA725, '\u{A724}', '\0', '\0'),
    (0xA727, '\u{A726}', '\0', '\0'),
    (0xA729, '\u{A728}', '\0', '\0'),
    (0xA72B, '\u{A72A}', '\0', '\0'),
    (0xA72D, '\u{A72C}', '\0', '\0'),
    (0xA72F, '\u{A72E}', '\0', '\0'),
    (0xA733, '\u{A732}', '\0', '\0'),
    (0xA735, '\u{A734}', '\0', '\0'),
    (0xA737, '\u{A736}', '\0', '\0'),
    (0xA739, '\u{A738}', '\0', '\0'),
    (0xA73B, '\u{A73A}', '\0', '\0'),
    (0xA73D, '\u{A73C}', '\0', '\0'),
    (0xA73F, '\u{A73E}', '\0', '\0'),
    (0xA741, '\u{A740}', '\0', '\0'),
    (0xA743, '\u{A742}', '\0', '\0'),
    (0xA745, '\u{A744}', '\0', '\0'),
    (0xA747, '\u{A746}', '\0', '\0'),
    (0xA749, '\u{A748}', '\0', '\0'),
    (0xA74B, '\u{A74A}', '\0', '\0'),
    (0xA74D, '\u{A74C}', '\0', '\0'),
    (0xA74F, '\u{A74E}', '\0', '\0'),
    (0xA751, '\u{A750}', '\0', '\0'),
    (0xA753, '\u{A752}', '\0', '\0'),
    (0xA755, '\u{A754}', '\0', '\0'),
    (0xA757, '\u{A756}', '\0', '\0'),
    (0xA759, '\u{A758}', '\0', '\0'),
    (0xA75B, '\u{A75A}', '\0', '\0'),
    (0xA75D, '\u{A75C}', '\0', '\0'),
    (0xA75F, '\u{A75E}', '\0', '\0'),
    (0xA761, '\u{A760}', '\0', '\0'),
    (0xA763, '\u{A762}', '\0', '\0'),
    (0xA765, '\u{A764}', '\0', '\0'),
    (0xA767, '\u{A766}', '\0', '\0'),
    (0xA769, '\u{A768}', '\0', '\0'),
    (0xA76B, '\u{A76A}', '\0', '\0'),
    (0xA76D, '\u{A76C}', '\0', '\0'),
    (0xA76F, '\u{A76E}', '\0', '\0'),
    (0xA77A, '\u{A779}', '\0', '\0'),
    (0xA77C, '\u{A77B}', '\0', '\0'),
    (0xA77F, '\u{A77E}', '\0', '\0'),
    (0xA781, '\u{A780}', '\0', '\0'),
    (0xA783, '\u{A782}', '\0', '\0'),
    (0xA785, '\u{A784}', '\0', '\0'),
    (0xA787, '\u{A786}', '\0', '\0'),
    (0xA78C, '\u{A78B}', '\0', '\0'),
    (0xA791, '\u{A790}', '\0', '\0'),
    (0xA793, '\u{A792}', '\0', '\0'),
    (0xA794, '\u{A7C4}', '\0', '\0'),
    (0xA797, '\u{A796}', '\0', '\0'),
    (0xA799, '\u{A798}', '\0', '\0'),
    (0xA79B, '\u{A79A}', '\0', '\0'),
    (0xA79D, '\u{A79C}', '\0', '\0'),
    (0xA79F, '\u{A79E}', '\0', '\0'),
    (0xA7A1, '\u{A7A0}', '\0', '\0'),
    (0xA7A3, '\u{A7A2}', '\0', '\0'),
    (0xA7A5, '\u{A7A4}', '\0', '\0'),
    (0xA7A7, '\u{A7A6}', '\0', '\0'),
    (0xA7A9, '\u{A7A8}', '\0', '\0'),
    (0xA7B5, '\u{A7B4}', '\0', '\0'),
    (0xA7B7, '\u{A7B6}', '\0', '\0'),
    (0xA7B9, '\u{A7B8}', '\0', '\0'),
    (0xA7BB, '\u{A7BA}', '\0', '\0'),
    (0xA7BD, '\u{A7BC}', '\0', '\0'),
    (0xA7BF, '\u{A7BE}', '\0', '\0'),
    (0xA7C1, '\u{A7C0}', '\0', '\0'),
    (0xA7C3, '\u{A7C2}', '\0', '\0'),
    (0xA7C8, '\u{A7C7}', '\0', '\0'),
    (0xA7CA, '\u{A7C9}', '\0', '\0'),
    (0xA7D1, '\u{A7D0}', '\0', '\0'),
    (0xA7D7, '\u{A7D6}', '\0', '\0'),
    (0xA7D9, '\u{A7D8}', '\0', '\0'),
    (0xA7F6, '\u{A7F5}', '\0', '\0'),
    (0xAB53, '\u{A7B3}', '\0', '\0'),
    (0xAB70, '\u{13A0}', '\0', '\0'),
    (0xAB71, '\u{13A1}', '\0', '\0'),
    (0xAB72, '\u{13A2}', '\0', '\0'),
    (0xAB73, '\u{13A3}', '\0', '\0'),
    (0xAB74, '\u{13A4}', '\0', '\0'),
    (0xAB75, '\u{13A5}', '\0', '\0'),
    (0xAB76, '\u{13A6}', '\0', '\0'),
    (0xAB77, '\u{13A7}', '\0', '\0'),
    (0xAB78, '\u{13A8}', '\0', '\0'),
    (0xAB79, '\u{13A9}', '\0', '\0'),
    (0xAB7A, '\u{13AA}', '\0', '\0'),
    (0xAB7B, '\u{13AB}', '\0', '\0'),
    (0xAB7C, '\u{13AC}', '\0', '\0'),
    (0xAB7D, '\u{13AD}', '\0', '\0'),
    (0xAB7E, '\u{13AE}', '\0', '\0'),
    (0xAB7F, '\u{13AF}', '\0', '\0'),
    (0xAB80, '\u{13B0}', '\0', '\0'),
    (0xAB81, '\u{13B1}', '\0', '\0'),
    (0xAB82, '\u{13B2}', '\0', '\0'),
    (0xAB83, '\u{13B3}', '\0', '\0'),
    (0xAB84, '\u{13B4}', '\0', '\0'),
    (0xAB85, '\u{13B5}', '\0', '\0'),
    (0xAB86, '\u{13B6}', '\0', '\0'),
    (0xAB87, '\u{13B7}', '\0', '\0'),
    (0xAB88, '\u{13B8}', '\0', '\0'),
    (0xAB89, '\u{13B9}', '\0', '\0'),
    (0xAB8A, '\u{13BA}', '\0', '\0'),
    (0xAB8B, '\u{13BB}', '\0', '\0'),
    (0xAB8C, '\u{13BC}', '\0', '\0'),
    (0xAB8D, '\u{13BD}', '\0', '\0'),
    (0xAB8E, '\u{13BE}', '\0', '\0'),
    (0xAB8F, '\u{13BF}', '\0', '\0'),
    (0xAB90, '\u{13C0}', '\0', '\0'),
    (0xAB91, '\u{13C1}', '\0', '\0'),
    (0xAB92, '\u{13C2}', '\0', '\0'),
    (0xAB93, '\u{13C3}', '\0', '\0'),
    (0xAB94, '\u{13C4}', '\0', '\0'),
    (0xAB95, '\u{13C5}', '\0', '\0'),
    (0xAB96, '\u{13C6}', '\0', '\0'),
    (0xAB97, '\u{13C7}', '\0', '\0'),
    (0xAB98, '\u{13C8}', '\0', '\0'),
    (0xAB99, '\u{13C9}', '\0', '\0'),
    (0xAB9A, '\u{13CA}', '\0', '\0'),
    (0xAB9B, '\u{13CB}', '\0', '\0'),
    (0xAB9C, '\u{13CC}', '\0', '\0'),
    (0xAB9D, '\u{13CD}', '\0', '\0'),
    (0xAB9E, '\u{13CE}', '\0', '\0'),
    (0xAB9F, '\u{13CF}', '\0', '\0'),
    (0xABA0, '\u{13D0}', '\0', '\0'),
    (0xABA1, '\u{13D1}', '\0', '\0'),
    (0xABA2, '\u{13D2}', '\0', '\0'),
    (0xABA3, '\u{13D3}', '\0', '\0'),
    (0xABA4, '\u{13D4}', '\0', '\0'),
    (0xABA5, '\u{13D5}', '\0', '\0'),
    (0xABA6, '\u{13D6}', '\0', '\0'),
    (0xABA7, '\u{13D7}', '\0', '\0'),
    (0xABA8, '\u{13D8}', '\0', '\0'),
    (0xABA9, '\u{13D9}', '\0', '\0'),
    (0xABAA, '\u{13DA}', '\0', '\0'),
    (0xABAB, '\u{13DB}', '\0', '\0'),
    (0xABAC, '\u{13DC}', '\0', '\0'),
    (0xABAD, '\u{13DD}', '\0', '\0'),
    (0xABAE, '\u{13DE}', '\0', '\0'),
    (0xABAF, '\u{13DF}', '\0', '\0'),
    (0xABB0, '\u{13E0}', '\0', '\0'),
    (0xABB1, '\u{13E1}', '\0', '\0'),
    (0xABB2, '\u{13E2}', '\0', '\0'),
    (0xABB3, '\u{13E3}', '\0', '\0'),
    (0xABB4, '\u{13E4}', '\0', '\0'),
    (0xABB5, '\u{13E5}', '\0', '\0'),
    (0xABB6, '\u{13E6}', '\0', '\0'),
    (0xABB7, '\u{13E7}', '\0', '\0'),
    (0xABB8, '\u{13E8}', '\0', '\0'),
    (0xABB9, '\u{13E9}', '\0', '\0'),
    (0xABBA, '\u{13EA}', '\0', '\0'),
    (0xABBB, '\u{13EB}', '\0', '\0'),
    (0xABBC, '\u{13EC}', '\0', '\0'),
    (0xABBD, '\u{13ED}', '\0', '\0'),
    (0xABBE, '\u{13EE}', '\0', '\0'),
    (0xABBF, '\u{13EF}', '\0', '\0'),
    (0xFB00, '\u{46}', '\u{66}', '\0'),
    (0xFB01, '\u{46}', '\u{69}', '\0'),
    (0xFB02, '\u{46}', '\u{6C}', '\0'),
    (0xFB03, '\u{46}', '\u{66}', '\u{69}'),
    (0xFB04, '\u{46}', '\u{66}', '\u{6C}'),
    (0xFB05, '\u{53}', '\u{74}', '\0'),
    (0xFB06, '\u{53}', '\u{74}', '\0'),
    (0xFB13, '\u{544}', '\u{576}', '\0'),
    (0xFB14, '\u{544}', '\u{565}', '\0'),
    (0xFB15, '\u{544}', '\u{56B}', '\0'),
    (0xFB16, '\u{54E}', '\u{576}', '\0'),
    (0xFB17, '\u{544}', '\u{56D}', '\0'),
    (0xFF41, '\u{FF21}', '\0', '\0'),
    (0xFF42, '\u{FF22}', '\0', '\0'),
    (0xFF43, '\u{FF23}', '\0', '\0'),
    (0xFF44, '\u{FF24}', '\0', '\0'),
    (0xFF45, '\u{FF25}', '\0', '\0'),
    (0xFF46, '\u{FF26}', '\0', '\0'),
    (0xFF47, '\u{FF27}', '\0', '\0'),
    (0xFF48, '\u{FF28}', '\0', '\0'),
    (0xFF49, '\u{FF29}', '\0', '\0'),
    (0xFF4A, '\u{FF2A}', '\0', '\0'),
    (0xFF4B, '\u{FF2B}', '\0', '\0'),
    (0xFF4C, '\u{FF2C}', '\0', '\0'),
    (0xFF4D, '\u{FF2D}', '\0', '\0'),
    (0xFF4E, '\u{FF2E}', '\0', '\0'),
    (0xFF4F, '\u{FF2F}', '\0', '\0'),
    (0xFF50, '\u{FF30}', '\0', '\0'),
    (0xFF51, '\u{FF31}', '\0', '\0'),
    (0xFF52, '\u{FF32}', '\0', '\0'),
    (0xFF53, '\u{FF33}', '\0', '\0'),
    (0xFF54, '\u{FF34}', '\0', '\0'),
    (0xFF55, '\u{FF35}', '\0', '\0'),
    (0xFF56, '\u{FF36}', '\0', '\0'),
    (0xFF57, '\u{FF37}', '\0', '\0'),
    (0xFF58, '\u{FF38}', '\0', '\0'),
    (0xFF59, '\u{FF39}', '\0', '\0'),
    (0xFF5A, '\u{FF3A}', '\0', '\0'),
    (0x10428, '\u{10400}', '\0', '\0'),
    (0x10429, '\u{10401}', '\0', '\0'),
    (0x1042A, '\u{10402}', '\0', '\0'),
    (0x1042B, '\u{10403}', '\0', '\0'),
    (0x1042C, '\u{10404}', '\0', '\0'),
    (0x1042D, '\u{10405}', '\0', '\0'),
    (0x1042E, '\u{10406}', '\0', '\0'),
    (0x1042F, '\u{10407}', '\0', '\0'),
    (0x10430, '\u{10408}', '\0', '\0'),
    (0x10431, '\u{10409}', '\0', '\0'),
    (0x10432, '\u{1040A}', '\0', '\0'),
    (0x10433, '\u{1040B}', '\0', '\0'),
    (0x10434, '\u{1040C}', '\0', '\0'),
    (0x10435, '\u{1040D}', '\0', '\0'),
    (0x10436, '\u{1040E}', '\0', '\0'),
    (0x10437, '\u{1040F}', '\0', '\0'),
    (0x10438, '\u{10410}', '\0', '\0'),
    (0x10439, '\u{10411}', '\0', '\0'),
    (0x1043A, '\u{10412}', '\0', '\0'),
    (0x1043B, '\u{10413}', '\0', '\0'),
    (0x1043C, '\u{10414}', '\0', '\0'),
    (0x1043D, '\u{10415}', '\0', '\0'),
    (0x1043E, '\u{10416}', '\0', '\0'),
    (0x1043F, '\u{10417}', '\0', '\0'),
    (0x10440, '\u{10418}', '\0', '\0'),
    (0x10441, '\u{10419}', '\0', '\0'),
    (0x10442, '\u{1041A}', '\0', '\0'),
    (0x10443, '\u{1041B}', '\0', '\0'),
    (0x10444, '\u{1041C}', '\0', '\0'),
    (0x10445, '\u{1041D}', '\0', '\0'),
    (0x10446, '\u{1041E}', '\0', '\0'),
    (0x10447, '\u{1041F}', '\0', '\0'),
    (0x10448, '\u{10420}', '\0', '\0'),
    (0x10449, '\u{10421}', '\0', '\0'),
    (0x1044A, '\u{10422}', '\0', '\0'),
    (0x1044B, '\u{10423}', '\0', '\0'),
    (0x1044C, '\u{10424}', '\0', '\0'),
    (0x1044D, '\u{10425}', '\0', '\0'),
    (0x1044E, '\u{10426}', '\0', '\0'),
    (0x1044F, '\u{10427}', '\0', '\0'),
    (0x104D8, '\u{104B0}', '\0', '\0'),
    (0x104D9, '\u{104B1}', '\0', '\0'),
    (0x104DA, '\u{104B2}', '\0', '\0'),
    (0x104DB, '\u{104B3}', '\0', '\0'),
    (0x104DC, '\u{104B4}', '\0', '\0'),
    (0x104DD, '\u{104B5}', '\0', '\0'),
    (0x104DE, '\u{104B6}', '\0', '\0'),
    (0x104DF, '\u{104B7}', '\0', '\0'),
    (0x104E0, '\u{104B8}', '\0', '\0'),
    (0x104E1, '\u{104B9}', '\0', '\0'),
    (0x104E2, '\u{104BA}', '\0', '\0'),
    (0x104E3, '\u{104BB}', '\0', '\0'),
    (0x104E4, '\u{104BC}', '\0', '\0'),
    (0x104E5, '\u{104BD}', '\0', '\0'),
    (0x104E6, '\u{104BE}', '\0', '\0'),
    (0x104E7, '\u{104BF}', '\0', '\0'),
    (0x104E8, '\u{104C0}', '\0', '\0'),
    (0x104E9, '\u{104C1}', '\0', '\0'),
    (0x104EA, '\u{104C2}', '\0', '\0'),
    (0x104EB, '\u{104C3}', '\0', '\0'),
    (0x104EC, '\u{104C4}', '\0', '\0'),
    (0x104ED, '\u{104C5}', '\0', '\0'),
    (0x104EE, '\u{104C6}', '\0', '\0'),
    (0x104EF, '\u{104C7}', '\0', '\0'),
    (0x104F0, '\u{104C8}', '\0', '\0'),
    (0x104F1, '\u{104C9}', '\0', '\0'),
    (0x104F2, '\u{104CA}', '\0', '\0'),
    (0x104F3, '\u{104CB}', '\0', '\0'),
    (0x104F4, '\u{104CC}', '\0', '\0'),
    (0x104F5, '\u{104CD}', '\0', '\0'),
    (0x104F6, '\u{104CE}', '\0', '\0'),
    (0x104F7, '\u{104CF}', '\0', '\0'),
    (0x104F8, '\u{104D0}', '\0', '\0'),
    (0x104F9, '\u{104D1}', '\0', '\0'),
    (0x104FA, '\u{104D2}', '\0', '\0'),
    (0x104FB, '\u{104D3}', '\0', '\0'),
    (0x10597, '\u{10570}', '\0', '\0'),
    (0x10598, '\u{10571}', '\0', '\0'),
    (0x10599, '\u{10572}', '\0', '\0'),
    (0x1059A, '\u{10573}', '\0', '\0'),
    (0x1059B, '\u{10574}', '\0', '\0'),
    (0x1059C, '\u{10575}', '\0', '\0'),
    (0x1059D, '\u{10576}', '\0', '\0'),
    (0x1059E, '\u{10577}', '\0', '\0'),
    (0x1059F, '\u{10578}', '\0', '\0'),
    (0x105A0, '\u{10579}', '\0', '\0'),
    (0x105A1, '\u{1057A}', '\0', '\0'),
    (0x105A3, '\u{1057C}', '\0', '\0'),
    (0x105A4, '\u{1057D}', '\0', '\0'),
    (0x105A5, '\u{1057E}', '\0', '\0'),
    (0x105A6, '\u{1057F}', '\0', '\0'),
    (0x105A7, '\u{10580}', '\0', '\0'),
    (0x105A8, '\u{10581}', '\0', '\0'),
    (0x105A9, '\u{10582}', '\0', '\0'),
    (0x105AA, '\u{10583}', '\0', '\0'),
    (0x105AB, '\u{10584}', '\0', '\0'),
    (0x105AC, '\u{10585}', '\0', '\0'),
    (0x105AD, '\u{10586}', '\0', '\0'),
    (0x105AE, '\u{10587}', '\0', '\0'),
    (0x105AF, '\u{10588}', '\0', '\0'),
    (0x105B0, '\u{10589}', '\0', '\0'),
    (0x105B1, '\u{1058A}', '\0', '\0'),
    (0x105B3, '\u{1058C}', '\0', '\0'),
    (0x105B4, '\u{1058D}', '\0', '\0'),
    (0x105B5, '\u{1058E}', '\0', '\0'),
    (0x105B6, '\u{1058F}', '\0', '\0'),
    (0x105B7, '\u{10590}', '\0', '\0'),
    (0x105B8, '\u{10591}', '\0', '\0'),
    (0x105B9, '\u{10592}', '\0', '\0'),
    (0x105BB, '\u{10594}', '\0', '\0'),
    (0x105BC, '\u{10595}', '\0', '\0'),
    (0x10CC0, '\u{10C80}', '\0', '\0'),
    (0x10CC1, '\u{10C81}', '\0', '\0'),
    (0x10CC2, '\u{10C82}', '\0', '\0'),
    (0x10CC3, '\u{10C83}', '\0', '\0'),
    (0x10CC4, '\u{10C84}', '\0', '\0'),
    (0x10CC5, '\u{10C85}', '\0', '\0'),
    (0x10CC6, '\u{10C86}', '\0', '\0'),
    (0x10CC7, '\u{10C87}', '\0', '\0'),
    (0x10CC8, '\u{10C88}', '\0', '\0'),
    (0x10CC9, '\u{10C89}', '\0', '\0'),
    (0x10CCA, '\u{10C8A}', '\0', '\0'),
    (0x10CCB, '\u{10C8B}', '\0', '\0'),
    (0x10CCC, '\u{10C8C}', '\0', '\0'),
    (0x10CCD, '\u{10C8D}', '\0', '\0'),
    (0x10CCE, '\u{10C8E}', '\0', '\0'),
    (0x10CCF, '\u{10C8F}', '\0', '\0'),
    (0x10CD0, '\u{10C90}', '\0', '\0'),
    (0x10CD1, '\u{10C91}', '\0', '\0'),
    (0x10CD2, '\u{10C92}', '\0', '\0'),
    (0x10CD3, '\u{10C93}', '\0', '\0'),
    (0x10CD4, '\u{10C94}', '\0', '\0'),
    (0x10CD5, '\u{10C95}', '\0', '\0'),
    (0x10CD6, '\u{10C96}', '\0', '\0'),
    (0x10CD7, '\u{10C97}', '\0', '\0'),
    (0x10CD8, '\u{10C98}', '\0', '\0'),
    (0x10CD9, '\u{10C99}', '\0', '\0'),
    (0x10CDA, '\u{10C9A}', '\0', '\0'),
    (0x10CDB, '\u{10C9B}', '\0', '\0'),
    (0x10CDC, '\u{10C9C}', '\0', '\0'),
    (0x10CDD, '\u{10C9D}', '\0', '\0'),
    (0x10CDE, '\u{10C9E}', '\0', '\0'),
    (0x10CDF, '\u{10C9F}', '\0', '\0'),
    (0x10CE0, '\u{10CA0}', '\0', '\0'),
    (0x10CE1, '\u{10CA1}', '\0', '\0'),
    (0x10CE2, '\u{10CA2}', '\0', '\0'),
    (0x10CE3, '\u{10CA3}', '\0', '\0'),
    (0x10CE4, '\u{10CA4}', '\0', '\0'),
    (0x10CE5, '\u{10CA5}', '\0', '\0'),
    (0x10CE6, '\u{10CA6}', '\0', '\0'),
    (0x10CE7, '\u{10CA7}', '\0', '\0'),
    (0x10CE8, '\u{10CA8}', '\0', '\0'),
    (0x10CE9, '\u{10CA9}', '\0', '\0'),
    (0x10CEA, '\u{10CAA}', '\0', '\0'),
    (0x10CEB, '\u{10CAB}', '\0', '\0'),
    (0x10CEC, '\u{10CAC}', '\0', '\0'),
    (0x10CED, '\u{10CAD}', '\0', '\0'),
    (0x10CEE, '\u{10CAE}', '\0', '\0'),
    (0x10CEF, '\u{10CAF}', '\0', '\0'),
    (0x10CF0, '\u{10CB0}', '\0', '\0'),
    (0x10CF1, '\u{10CB1}', '\0', '\0'),
    (0x10CF2, '\u{10CB2}', '\0', '\0'),
    (0x118C0, '\u{118A0}', '\0', '\0'),
    (0x118C1, '\u{118A1}', '\0', '\0'),
    (0x118C2, '\u{118A2}', '\0', '\0'),
    (0x118C3, '\u{118A3}', '\0', '\0'),
    (0x118C4, '\u{118A4}', '\0', '\0'),
    (0x118C5, '\u{118A5}', '\0', '\0'),
    (0x118C6, '\u{118A6}', '\0', '\0'),
    (0x118C7, '\u{118A7}', '\0', '\0'),
    (0x118C8, '\u{118A8}', '\0', '\0'),
    (0x118C9, '\u{118A9}', '\0', '\0'),
    (0x118CA, '\u{118AA}', '\0', '\0'),
    (0x118CB, '\u{118AB}', '\0', '\0'),
    (0x118CC, '\u{118AC}', '\0', '\0'),
    (0x118CD, '\u{118AD}', '\0', '\0'),
    (0x118CE, '\u{118AE}', '\0', '\0'),
    (0x118CF, '\u{118AF}', '\0', '\0'),
    (0x118D0, '\u{118B0}', '\0', '\0'),
    (0x118D1, '\u{118B1}', '\0', '\0'),
    (0x118D2, '\u{118B2}', '\0', '\0'),
    (0x118D3, '\u{118B3}', '\0', '\0'),
    (0x118D4, '\u{118B4}', '\0', '\0'),
    (0x118D5, '\u{118B5}', '\0', '\0'),
    (0x118D6, '\u{118B6}', '\0', '\0'),
    (0x118D7, '\u{118B7}', '\0', '\0'),
    (0x118D8, '\u{118B8}', '\0', '\0'),
    (0x118D9, '\u{118B9}', '\0', '\0'),
    (0x118DA, '\u{118BA}', '\0', '\0'),
    (0x118DB, '\u{118BB}', '\0', '\0'),
    (0x118DC, '\u{118BC}', '\0', '\0'),
    (0x118DD, '\u{118BD}', '\0', '\0'),
    (0x118DE, '\u{118BE}', '\0', '\0'),
    (0x118DF, '\u{118BF}', '\0', '\0'),
    (0x16E60, '\u{16E40}', '\0', '\0'),
    (0x16E61, '\u{16E41}', '\0', '\0'),
    (0x16E62, '\u{16E42}', '\0', '\0'),
    (0x16E63, '\u{16E43}', '\0', '\0'),
    (0x16E64, '\u{16E44}', '\0', '\0'),
    (0x16E65, '\u{16E45}', '\0', '\0'),
    (0x16E66, '\u{16E46}', '\0', '\0'),
    (0x16E67, '\u{16E47}', '\0', '\0'),
    (0x16E68, '\u{16E48}', '\0', '\0'),
    (0x16E69, '\u{16E49}', '\0', '\0'),
    (0x16E6A, '\u{16E4A}', '\0', '\0'),
    (0x16E6B, '\u{16E4B}', '\0', '\0'),
    (0x16E6C, '\u{16E4C}', '\0', '\0'),
    (0x16E6D, '\u{16E4D}', '\0', '\0'),
    (0x16E6E, '\u{16E4E}', '\0', '\0'),
    (0x16E6F, '\u{16E4F}', '\0', '\0'),
    (0x16E70, '\u{16E50}', '\0', '\0'),
    (0x16E71, '\u{16E51}', '\0', '\0'),
    (0x16E72, '\u{16E52}', '\0', '\0'),
    (0x16E73, '\u{16E53}', '\0', '\0'),
    (0x16E74, '\u{16E54}', '\0', '\0'),
    (0x16E75, '\u{16E55}', '\0', '\0'),
    (0x16E76, '\u{16E56}', '\0', '\0'),
    (0x16E77, '\u{16E57}', '\0', '\0'),
    (0x16E78, '\u{16E58}', '\0', '\0'),
    (0x16E79, '\u{16E59}', '\0', '\0'),
    (0x16E7A, '\u{16E5A}', '\0', '\0'),
    (0x16E7B, '\u{16E5B}', '\0', '\0'),
    (0x16E7C, '\u{16E5C}', '\0', '\0'),
    (0x16E7D, '\u{16E5D}', '\0', '\0'),
    (0x16E7E, '\u{16E5E}', '\0', '\0'),
    (0x16E7F, '\u{16E5F}', '\0', '\0'),
    (0x1E922, '\u{1E900}', '\0', '\0'),
    (0x1E923, '\u{1E901}', '\0', '\0'),
    (0x1E924, '\u{1E902}', '\0', '\0'),
    (0x1E925, '\u{1E903}', '\0', '\0'),
    (0x1E926, '\u{1E904}', '\0', '\0'),
    (0x1E927, '\u{1E905}', '\0', '\0'),
    (0x1E928, '\u{1E906}', '\0', '\0'),
    (0x1E929, '\u{1E907}', '\0', '\0'),
    (0x1E92A, '\u{1E908}', '\0', '\0'),
    (0x1E92B, '\u{1E909}', '\0', '\0'),
    (0x1E92C, '\u{1E90A}', '\0', '\0'),
    (0x1E92D, '\u{1E90B}', '\0', '\0'),
    (0x1E92E, '\u{1E90C}', '\0', '\0'),
    (0x1E92F, '\u{1E90D}', '\0', '\0'),
    (0x1E930, '\u{1E90E}', '\0', '\0'),
    (0x1E931, '\u{1E90F}', '\0', '\0'),
    (0x1E932, '\u{1E910}', '\0', '\0'),
    (0x1E933, '\u{1E911}', '\0', '\0'),
    (0x1E934, '\u{1E912}', '\0', '\0'),
    (0x1E935, '\u{1E913}', '\0', '\0'),
    (0x1E936, '\u{1E914}', '\0', '\0'),
    (0x1E937, '\u{1E915}', '\0', '\0'),
    (0x1E938, '\u{1E916}', '\0', '\0'),
    (0x1E939, '\u{1E917}', '\0', '\0'),
    (0x1E93A, '\u{1E918}', '\0', '\0'),
    (0x1E93B, '\u{1E919}', '\0', '\0'),
    (0x1E93C, '\u{1E91A}', '\0', '\0'),
    (0x1E93D, '\u{1E91B}', '\0', '\0'),
    (0x1E93E, '\u{1E91C}', '\0', '\0'),
    (0x1E93F, '\u{1E91D}', '\0', '\0'),
    (0x1E940, '\u{1E91E}', '\0', '\0'),
    (0x1E941, '\u{1E91F}', '\0', '\0'),
    (0x1E942, '\u{1E920}', '\0', '\0'),
    (0x1E943, '\u{1E921}', '\0', '\0'),
];

/// Whether the keys of the rows `lo..=hi` ascend strictly, each below its
/// successor.
pub open spec fn ascending(lo: int, hi: int) -> bool
    decreases hi - lo,
{
    lo < hi ==> TITLE[lo].0 < TITLE[lo + 1].0 && ascending(lo + 1, hi)
}

/// Two ascending runs that meet form one ascending run.
proof fn lemma_ascending_join(lo: int, mid: int, hi: int)
    requires
        lo <= mid <= hi,
        ascending(lo, mid),
        ascending(mid, hi),
    ensures
        ascending(lo, hi),
    decreases mid - lo,
{
    if lo < mid {
        lemma_ascending_join(lo + 1, mid, hi);
    }
}

/// In an ascending run a row further on has the greater key.
proof fn lemma_ascending_order(lo: int, hi: int, i: int, j: int)
    requires
        ascending(lo, hi),
        lo <= i < j <= hi,
    ensures
        TITLE[i].0 < TITLE[j].0,
    decreases j - lo,
{
    if lo < i {
        lemma_ascending_order(lo + 1, hi, i, j);
    } else if i + 1 < j {
        lemma_ascending_order(lo + 1, hi, i + 1, j);
    }
}

proof fn lemma_ascending_0()
    ensures
        ascending(0, 64),
{
    reveal_with_fuel(ascending, 65);
}

proof fn lemma_ascending_64()
    ensures
        ascending(64, 128),
{
    reveal_with_fuel(ascending, 65);
}

proof fn lemma_ascending_128()
    ensures
        ascending(128, 192),
{
    reveal_with_fuel(ascending, 65);
}

proof fn lemma_ascending_192()
    ensures
        ascending(192, 256),
{
    reveal_with_fuel(ascending, 65);
}

proof fn lemma_ascending_256()
    ensures
        ascending(256, 320),
{
    reveal_with_fuel(ascending, 65);
}

proof fn lemma_ascending_320()
    ensures
        ascending(320, 384),
{
    reveal_with_fuel(ascending, 65);
}

proof fn lemma_ascending_384()
    ensures
        ascending(384, 448),
{
    reveal_with_fuel(ascending, 65);
}

proof fn lemma_ascending_448()
    ensures
        ascending(448, 512),
{
    reveal_with_fuel(ascending, 65);
}

proof fn lemma_ascending_512()
    ensures
        ascending(512, 576),
{
    reveal_with_fuel(ascending, 65);
}

proof fn lemma_ascending_576()
    ensures
        ascending(576, 640),
{
    reveal_with_fuel(ascending, 65);
}

proof fn lemma_ascending_640()
    ensures
        ascending(640, 704),
{
    reveal_with_fuel(ascending, 65);
}

proof fn lemma_ascending_704()
    ensures
        ascending(704, 768),
{
    reveal_with_fuel(ascending, 65);
}

proof fn lemma_ascending_768()
    ensures
        ascending(768, 832),
{
    reveal_with_fuel(ascending, 65);
}

proof fn lemma_ascending_832()
    ensures
        ascending(832, 896),
{
    reveal_with_fuel(ascending, 65);
}

proof fn lemma_ascending_896()
    ensures
        ascending(896, 960),
{
    reveal_with_fuel(ascending, 65);
}

proof fn lemma_ascending_960()
    ensures
        ascending(960, 1024),
{
    reveal_with_fuel(ascending, 65);
}

proof fn lemma_ascending_1024()
    ensures
        ascending(1024, 1088),
{
    reveal_with_fuel(ascending, 65);
}

proof fn lemma_ascending_1088()
    ensures
        ascending(1088, 1152),
{
    reveal_with_fuel(ascending, 65);
}

proof fn lemma_ascending_1152()
    ensures
        ascending(1152, 1216),
{
    reveal_with_fuel(ascending, 65);
}

proof fn lemma_ascending_1216()
    ensures
        ascending(1216, 1280),
{
    reveal_with_fuel(ascending, 65);
}

proof fn lemma_ascending_1280()
    ensures
        ascending(1280, 1344),
{
    reveal_with_fuel(ascending, 65);
}

proof fn lemma_ascending_1344()
    ensures
        ascending(1344, 1408),
{
    reveal_with_fuel(ascending, 65);
}

proof fn lemma_ascending_1408()
    ensures
        ascending(1408, 1451),
{
    reveal_with_fuel(ascending, 65);
}

/// The whole table ascends.
proof fn lemma_table_ascending()
    ensures
        ascending(0, TITLE_LEN - 1),
{
    lemma_ascending_0();
    lemma_ascending_64();
    lemma_ascending_join(0, 64, 128);
    lemma_ascending_128();
    lemma_ascending_join(0, 128, 192);
    lemma_ascending_192();
    lemma_ascending_join(0, 192, 256);
    lemma_ascending_256();
    lemma_ascending_join(0, 256, 320);
    lemma_ascending_320();
    lemma_ascending_join(0, 320, 384);
    lemma_ascending_384();
    lemma_ascending_join(0, 384, 448);
    lemma_ascending_448();
    lemma_ascending_join(0, 448, 512);
    lemma_ascending_512();
    lemma_ascending_join(0, 512, 576);
    lemma_ascending_576();
    lemma_ascending_join(0, 576, 640);
    lemma_ascending_640();
    lemma_ascending_join(0, 640, 704);
    lemma_ascending_704();
    lemma_ascending_join(0, 704, 768);
    lemma_ascending_768();
    lemma_ascending_join(0, 768, 832);
    lemma_ascending_832();
    lemma_ascending_join(0, 832, 896);
    lemma_ascending_896();
    lemma_ascending_join(0, 896, 960);
    lemma_ascending_960();
    lemma_ascending_join(0, 960, 1024);
    lemma_ascending_1024();
    lemma_ascending_join(0, 1024, 1088);
    lemma_ascending_1088();
    lemma_ascending_join(0, 1088, 1152);
    lemma_ascending_1152();
    lemma_ascending_join(0, 1152, 1216);
    lemma_ascending_1216();
    lemma_ascending_join(0, 1216, 1280);
    lemma_ascending_1280();
    lemma_ascending_join(0, 1280, 1344);
    lemma_ascending_1344();
    lemma_ascending_join(0, 1344, 1408);
    lemma_ascending_1408();
    lemma_ascending_join(0, 1408, 1451);
}

/// Row `i` of [`TITLE`]. Opaque, so that a proof meets the rows of the table
/// only where it asks for them.
#[verifier::opaque]
pub open spec fn title_row(i: int) -> (u32, char, char, char) {
    TITLE[i]
}

/// Reads row `i` of the table.
pub fn title_row_at(i: usize) -> (r: (u32, char, char, char))
    requires
        i < TITLE_LEN,
    ensures
        r == title_row(i as int),
{
    reveal(title_row);
    TITLE[i]
}

/// The table is sorted: of two rows the later one has the greater key, so no
/// key occurs twice.
pub proof fn lemma_title_sorted(i: int, j: int)
    requires
        0 <= i < j < TITLE_LEN,
    ensures
        title_row(i).0 < title_row(j).0,
{
    reveal(title_row);
    lemma_table_ascending();
    lemma_ascending_order(0, TITLE_LEN - 1, i, j);
}

/// Whether the rows `lo..hi` map the small ASCII letters, in their order, to
/// the capital ones: row `i` maps `'a' + i` to `'A' + i`.
pub open spec fn letter_rows(lo: int, hi: int) -> bool
    decreases hi - lo,
{
    lo < hi ==> TITLE[lo] == ((0x61 + lo) as u32, (0x41 + lo) as char, '\0', '\0') && letter_rows(
        lo + 1,
        hi,
    )
}

proof fn lemma_letter_rows_at(lo: int, hi: int, i: int)
    requires
        letter_rows(lo, hi),
        lo <= i < hi,
    ensures
        TITLE[i] == ((0x61 + i) as u32, (0x41 + i) as char, '\0', '\0'),
    decreases i - lo,
{
    if lo < i {
        lemma_letter_rows_at(lo + 1, hi, i);
    }
}

/// The first 26 rows are those of `'a'..='z'`, and the row after them is
/// beyond ASCII: the table changes no other ASCII codepoint.
pub proof fn lemma_title_ascii_rows(i: int)
    requires
        0 <= i < 26,
    ensures
        title_row(i) == ((0x61 + i) as u32, (0x41 + i) as char, '\0', '\0'),
        title_row(26).0 > 0x7F,
{
    reveal(title_row);
    assert(letter_rows(0, 26)) by {
        reveal_with_fuel(letter_rows, 27);
    }
    lemma_letter_rows_at(0, 26, i);
}

} // verus!
