use vstd::prelude::*;

use crate::code_order::lemma_codes_unique;
use crate::color::{Color, Family, Group, Rgb, Value};
use crate::text::same_text;

verus! {

/// One entry of the color table: code, name, family, group, value and the
/// red, green and blue channels.
pub type Record = (&'static str, &'static str, Family, Group, Value, (u8, u8, u8));

/// Number of colors in the catalog.
pub const CATALOG_LEN: usize = 358;

/// The catalog, grouped by family and listed within a family in the
/// vendor's order.
pub const COLOR_TABLE: [Record; 358] = [
    // Blue violet
    ("BV0000", "Pale Thistle", Family::BlueViolet, Group::S0, Value::B000, (238, 236, 245)),
    ("BV000", "Iridescent Mauve", Family::BlueViolet, Group::S0, Value::B00, (238, 231, 241)),
    ("BV00", "Mauve Shadow", Family::BlueViolet, Group::S0, Value::B0, (233, 227, 240)),
    ("BV01", "Viola", Family::BlueViolet, Group::S0, Value::B1, (200, 196, 223)),
    ("BV02", "Prune", Family::BlueViolet, Group::S0, Value::B2, (190, 196, 223)),
    ("BV04", "Blue Berry", Family::BlueViolet, Group::S0, Value::B4, (146, 164, 206)),
    ("BV08", "Blue Violet", Family::BlueViolet, Group::S0, Value::B8, (176, 140, 185)),
    ("BV11", "Soft Violet", Family::BlueViolet, Group::S1, Value::B1, (224, 220, 236)),
    ("BV13", "Hydrangea Blue", Family::BlueViolet, Group::S1, Value::B3, (152, 158, 201)),
    ("BV17", "Deep Reddish Blue", Family::BlueViolet, Group::S1, Value::B7, (126, 144, 189)),
    ("BV20", "Dull Lavender", Family::BlueViolet, Group::S2, Value::B0, (220, 227, 242)),
    ("BV23", "Grayish Lavender", Family::BlueViolet, Group::S2, Value::B3, (196, 205, 225)),
    ("BV25", "Grayish Violet", Family::BlueViolet, Group::S2, Value::B5, (144, 143, 172)),
    ("BV29", "Slate", Family::BlueViolet, Group::S2, Value::B9, (46, 66, 86)),
    ("BV31", "Pale Lavender", Family::BlueViolet, Group::S3, Value::B1, (230, 232, 244)),
    ("BV34", "Bluebell", Family::BlueViolet, Group::S3, Value::B4, (127, 146, 189)),
    // Violet
    ("V0000", "Rose Quartz", Family::Violet, Group::S0, Value::B000, (243, 241, 248)),
    ("V000", "Pale Heath", Family::Violet, Group::S0, Value::B00, (247, 242, 247)),
    ("V01", "Heath", Family::Violet, Group::S0, Value::B1, (237, 204, 222)),
    ("V04", "Lilac", Family::Violet, Group::S0, Value::B4, (237, 185, 209)),
    ("V05", "Azalea", Family::Violet, Group::S0, Value::B5, (236, 180, 206)),
    ("V06", "Lavender", Family::Violet, Group::S0, Value::B6, (219, 165, 198)),
    ("V09", "Violet", Family::Violet, Group::S0, Value::B9, (151, 89, 154)),
    ("V12", "Pale Lilac", Family::Violet, Group::S1, Value::B2, (242, 223, 235)),
    ("V15", "Mallow", Family::Violet, Group::S1, Value::B5, (224, 182, 209)),
    ("V17", "Amethyst", Family::Violet, Group::S1, Value::B7, (179, 161, 199)),
    ("V20", "Wisteria", Family::Violet, Group::S2, Value::B0, (213, 204, 214)),
    ("V22", "Ash Lavender", Family::Violet, Group::S2, Value::B2, (123, 111, 144)),
    ("V25", "Pale Blackberry", Family::Violet, Group::S2, Value::B5, (182, 174, 198)),
    ("V28", "Eggplant", Family::Violet, Group::S2, Value::B8, (120, 122, 160)),
    ("V91", "Pale Grape", Family::Violet, Group::S9, Value::B1, (239, 208, 216)),
    ("V93", "Early Grape", Family::Violet, Group::S9, Value::B3, (237, 205, 223)),
    ("V95", "Light Grape", Family::Violet, Group::S9, Value::B5, (197, 137, 170)),
    ("V99", "Aubergine", Family::Violet, Group::S9, Value::B9, (79, 51, 77)),
    // Red violet
    ("RV0000", "Evening Primrose", Family::RedViolet, Group::S0, Value::B000, (246, 239, 246)),
    ("RV000", "Pale Purple", Family::RedViolet, Group::S0, Value::B00, (247, 233, 241)),
    ("RV00", "Water Lily", Family::RedViolet, Group::S0, Value::B0, (243, 211, 233)),
    ("RV02", "Sugared Almond Pink", Family::RedViolet, Group::S0, Value::B2, (252, 222, 233)),
    ("RV04", "Shock Pink", Family::RedViolet, Group::S0, Value::B4, (249, 176, 197)),
    ("RV06", "Cerise", Family::RedViolet, Group::S0, Value::B6, (238, 134, 174)),
    ("RV09", "Fuchsia", Family::RedViolet, Group::S0, Value::B9, (232, 124, 172)),
    ("RV10", "Pale Pink", Family::RedViolet, Group::S1, Value::B0, (254, 241, 245)),
    ("RV11", "Pink", Family::RedViolet, Group::S1, Value::B1, (252, 223, 227)),
    ("RV13", "Tender Pink", Family::RedViolet, Group::S1, Value::B3, (252, 211, 222)),
    ("RV14", "Begonia Pink", Family::RedViolet, Group::S1, Value::B4, (248, 160, 188)),
    ("RV17", "Deep Magenta", Family::RedViolet, Group::S1, Value::B7, (229, 139, 181)),
    ("RV19", "Red Violet", Family::RedViolet, Group::S1, Value::B9, (222, 115, 167)),
    ("RV21", "Light Pink", Family::RedViolet, Group::S2, Value::B1, (254, 238, 237)),
    ("RV23", "Pure Pink", Family::RedViolet, Group::S2, Value::B3, (251, 198, 207)),
    ("RV25", "Dog Rose Flower", Family::RedViolet, Group::S2, Value::B5, (248, 161, 193)),
    ("RV29", "Crimson", Family::RedViolet, Group::S2, Value::B9, (241, 74, 129)),
    ("RV32", "Shadow Pink", Family::RedViolet, Group::S3, Value::B2, (253, 220, 215)),
    ("RV34", "Dark Pink", Family::RedViolet, Group::S3, Value::B4, (251, 188, 184)),
    ("RV42", "Salmon Pink", Family::RedViolet, Group::S4, Value::B2, (251, 199, 191)),
    ("RV52", "Cotton Candy", Family::RedViolet, Group::S5, Value::B2, (220, 156, 182)),
    ("RV55", "Hollyhock", Family::RedViolet, Group::S5, Value::B5, (217, 97, 150)),
    ("RV63", "Begonia", Family::RedViolet, Group::S6, Value::B3, (219, 138, 181)),
    ("RV66", "Raspberry", Family::RedViolet, Group::S6, Value::B6, (141, 55, 101)),
    ("RV69", "Peony", Family::RedViolet, Group::S6, Value::B9, (156, 98, 118)),
    ("RV91", "Grayish Cherry", Family::RedViolet, Group::S9, Value::B1, (237, 222, 232)),
    ("RV93", "Smoky Purple", Family::RedViolet, Group::S9, Value::B3, (238, 195, 210)),
    ("RV95", "Baby Blossoms", Family::RedViolet, Group::S9, Value::B5, (198, 148, 170)),
    ("RV99", "Argyle Purple", Family::RedViolet, Group::S9, Value::B9, (110, 87, 100)),
    // Red
    ("R0000", "Pink Beryl", Family::Red, Group::S0, Value::B000, (252, 246, 242)),
    ("R000", "Cherry White", Family::Red, Group::S0, Value::B00, (255, 246, 242)),
    ("R00", "Pinkish White", Family::Red, Group::S0, Value::B0, (255, 245, 239)),
    ("R01", "Pinkish Vanilla", Family::Red, Group::S0, Value::B1, (253, 224, 218)),
    ("R02", "Rose Salmon", Family::Red, Group::S0, Value::B2, (254, 220, 208)),
    ("R05", "Salmon Red", Family::Red, Group::S0, Value::B5, (248, 157, 133)),
    ("R08", "Vermilion", Family::Red, Group::S0, Value::B8, (244, 109, 86)),
    ("R11", "Pale Cherry Pink", Family::Red, Group::S1, Value::B1, (255, 232, 221)),
    ("R12", "Light Tea Rose", Family::Red, Group::S1, Value::B2, (254, 220, 203)),
    ("R14", "Light Rouge", Family::Red, Group::S1, Value::B4, (249, 168, 157)),
    ("R17", "Lipstick Orange", Family::Red, Group::S1, Value::B7, (247, 143, 114)),
    ("R20", "Blush", Family::Red, Group::S2, Value::B0, (254, 224, 217)),
    ("R21", "Sardonyx", Family::Red, Group::S2, Value::B1, (252, 182, 172)),
    ("R22", "Light Prawn", Family::Red, Group::S2, Value::B2, (255, 153, 153)),
    ("R24", "Prawn", Family::Red, Group::S2, Value::B4, (245, 127, 130)),
    ("R27", "Cadmium Red", Family::Red, Group::S2, Value::B7, (242, 83, 100)),
    ("R29", "Lipstick Red", Family::Red, Group::S2, Value::B9, (239, 0, 71)),
    ("R30", "Pale Yellowish Pink", Family::Red, Group::S3, Value::B0, (254, 234, 229)),
    ("R32", "Peach", Family::Red, Group::S3, Value::B2, (252, 204, 196)),
    ("R35", "Coral", Family::Red, Group::S3, Value::B5, (245, 122, 138)),
    ("R37", "Carmine", Family::Red, Group::S3, Value::B7, (237, 120, 125)),
    ("R39", "Garnet", Family::Red, Group::S3, Value::B9, (214, 83, 130)),
    ("R43", "Bougainvillaea", Family::Red, Group::S4, Value::B3, (241, 143, 150)),
    ("R46", "Strong Red", Family::Red, Group::S4, Value::B6, (230, 80, 109)),
    ("R56", "Currant", Family::Red, Group::S5, Value::B6, (195, 102, 121)),
    ("R59", "Cardinal", Family::Red, Group::S5, Value::B9, (197, 95, 124)),
    ("R81", "Rose Pink", Family::Red, Group::S8, Value::B1, (246, 212, 220)),
    ("R83", "Rose Mist", Family::Red, Group::S8, Value::B3, (245, 170, 191)),
    ("R85", "Rose Red", Family::Red, Group::S8, Value::B5, (222, 118, 154)),
    ("R89", "Dark Red", Family::Red, Group::S8, Value::B9, (145, 53, 77)),
    // Yellow red
    ("YR0000", "Pale Chiffon", Family::YellowRed, Group::S0, Value::B000, (252, 246, 235)),
    ("YR000", "Silk", Family::YellowRed, Group::S0, Value::B00, (255, 241, 225)),
    ("YR00", "Powder Pink", Family::YellowRed, Group::S0, Value::B0, (254, 223, 199)),
    ("YR01", "Peach Puff", Family::YellowRed, Group::S0, Value::B1, (253, 214, 183)),
    ("YR02", "Light Orange", Family::YellowRed, Group::S0, Value::B2, (255, 228, 207)),
    ("YR04", "Chrome Orange", Family::YellowRed, Group::S0, Value::B4, (255, 207, 109)),
    ("YR07", "Cadmium Orange", Family::YellowRed, Group::S0, Value::B7, (246, 120, 51)),
    // Listed with the same group and value as YR07; kept as listed.
    ("YR09", "Chinese Orange", Family::YellowRed, Group::S0, Value::B7, (243, 87, 0)),
    ("YR12", "Loquat", Family::YellowRed, Group::S1, Value::B2, (254, 227, 145)),
    ("YR14", "Caramel", Family::YellowRed, Group::S1, Value::B4, (255, 211, 76)),
    ("YR15", "Pumpkin Yellow", Family::YellowRed, Group::S1, Value::B5, (255, 209, 152)),
    ("YR16", "Apricot", Family::YellowRed, Group::S1, Value::B6, (255, 196, 23)),
    ("YR18", "Sanguine", Family::YellowRed, Group::S1, Value::B8, (245, 115, 53)),
    ("YR20", "Yellowish Shade", Family::YellowRed, Group::S2, Value::B0, (255, 233, 201)),
    ("YR21", "Cream", Family::YellowRed, Group::S2, Value::B1, (248, 229, 187)),
    ("YR23", "Yellow Ochre", Family::YellowRed, Group::S2, Value::B3, (242, 219, 152)),
    ("YR24", "Pale Sepia", Family::YellowRed, Group::S2, Value::B4, (246, 220, 107)),
    ("YR27", "Tuscan Orange", Family::YellowRed, Group::S2, Value::B7, (216, 103, 69)),
    ("YR30", "Macadamia nut", Family::YellowRed, Group::S3, Value::B0, (247, 237, 201)),
    ("YR31", "Light Reddish Yellow", Family::YellowRed, Group::S3, Value::B1, (255, 230, 178)),
    ("YR61", "Spring Orange", Family::YellowRed, Group::S6, Value::B1, (254, 226, 204)),
    ("YR65", "Atoll", Family::YellowRed, Group::S6, Value::B5, (254, 187, 101)),
    ("YR68", "Orange", Family::YellowRed, Group::S6, Value::B8, (246, 119, 0)),
    ("YR82", "Mellow Peach", Family::YellowRed, Group::S8, Value::B2, (255, 209, 152)),
    // Yellow
    ("Y0000", "Yellow Fluorite", Family::Yellow, Group::S0, Value::B000, (255, 254, 247)),
    ("Y000", "Pale Lemon", Family::Yellow, Group::S0, Value::B00, (255, 255, 246)),
    ("Y00", "Barium Yellow", Family::Yellow, Group::S0, Value::B0, (255, 254, 229)),
    ("Y02", "Canary Yellow", Family::Yellow, Group::S0, Value::B2, (249, 245, 160)),
    ("Y04", "Acacia", Family::Yellow, Group::S0, Value::B4, (243, 233, 83)),
    ("Y06", "Yellow", Family::Yellow, Group::S0, Value::B6, (255, 247, 114)),
    ("Y08", "Acid Yellow", Family::Yellow, Group::S0, Value::B8, (255, 245, 0)),
    ("Y11", "Pale Yellow", Family::Yellow, Group::S1, Value::B1, (255, 252, 211)),
    ("Y13", "Lemon Yellow", Family::Yellow, Group::S1, Value::B3, (252, 249, 183)),
    ("Y15", "Cadmium Yellow", Family::Yellow, Group::S1, Value::B5, (255, 238, 114)),
    ("Y17", "Golden Yellow", Family::Yellow, Group::S1, Value::B7, (255, 234, 85)),
    ("Y18", "Lightning Yellow", Family::Yellow, Group::S1, Value::B8, (255, 242, 87)),
    ("Y19", "Napoli Yellow", Family::Yellow, Group::S1, Value::B9, (255, 238, 57)),
    ("Y21", "Buttercup Yellow", Family::Yellow, Group::S2, Value::B1, (255, 242, 201)),
    ("Y23", "Yellowish Beige", Family::Yellow, Group::S2, Value::B3, (253, 234, 190)),
    ("Y26", "Mustard", Family::Yellow, Group::S2, Value::B6, (246, 229, 111)),
    ("Y28", "Lionet Gold", Family::Yellow, Group::S2, Value::B8, (213, 181, 110)),
    ("Y32", "Cashmere", Family::Yellow, Group::S3, Value::B2, (251, 230, 202)),
    ("Y35", "Maize", Family::Yellow, Group::S3, Value::B5, (255, 224, 129)),
    ("Y38", "Honey", Family::Yellow, Group::S3, Value::B8, (255, 255, 153)),
    // Yellow green
    ("YG0000", "Lily White", Family::YellowGreen, Group::S0, Value::B000, (247, 249, 228)),
    ("YG00", "Mimosa Yellow", Family::YellowGreen, Group::S0, Value::B0, (238, 235, 166)),
    ("YG01", "Green Bice", Family::YellowGreen, Group::S0, Value::B1, (238, 242, 200)),
    ("YG03", "Yellow Green", Family::YellowGreen, Group::S0, Value::B3, (234, 238, 178)),
    ("YG05", "Salad", Family::YellowGreen, Group::S0, Value::B5, (226, 233, 153)),
    ("YG06", "Yellowish Green", Family::YellowGreen, Group::S0, Value::B6, (211, 227, 152)),
    ("YG07", "Acid Green", Family::YellowGreen, Group::S0, Value::B7, (182, 209, 53)),
    ("YG09", "Lettuce Green", Family::YellowGreen, Group::S0, Value::B9, (147, 197, 96)),
    ("YG11", "Mignonette", Family::YellowGreen, Group::S1, Value::B1, (236, 243, 213)),
    ("YG13", "Chartreuse", Family::YellowGreen, Group::S1, Value::B3, (223, 233, 166)),
    ("YG17", "Grass Green", Family::YellowGreen, Group::S1, Value::B7, (122, 191, 74)),
    ("YG21", "Anise", Family::YellowGreen, Group::S2, Value::B1, (249, 248, 198)),
    ("YG23", "New Leaf", Family::YellowGreen, Group::S2, Value::B3, (239, 239, 152)),
    ("YG25", "Celadon Green", Family::YellowGreen, Group::S2, Value::B5, (220, 228, 127)),
    ("YG41", "Pale Cobalt Green", Family::YellowGreen, Group::S4, Value::B1, (225, 238, 217)),
    ("YG45", "Cobalt Green", Family::YellowGreen, Group::S4, Value::B5, (197, 224, 190)),
    ("YG61", "Pale Moss", Family::YellowGreen, Group::S6, Value::B1, (183, 202, 144)),
    ("YG63", "Pea Green", Family::YellowGreen, Group::S6, Value::B3, (181, 210, 171)),
    ("YG67", "Moss", Family::YellowGreen, Group::S6, Value::B7, (151, 197, 146)),
    ("YG91", "Putty", Family::YellowGreen, Group::S9, Value::B1, (228, 223, 184)),
    ("YG93", "Grayish Yellow", Family::YellowGreen, Group::S9, Value::B3, (222, 219, 166)),
    ("YG95", "Pale Olive", Family::YellowGreen, Group::S9, Value::B5, (219, 210, 103)),
    ("YG97", "Spanish Olive", Family::YellowGreen, Group::S9, Value::B7, (170, 160, 0)),
    ("YG99", "Marine Green", Family::YellowGreen, Group::S9, Value::B9, (106, 120, 0)),
    // Green
    ("G0000", "Crystal Opal", Family::Green, Group::S0, Value::B000, (246, 250, 246)),
    ("G000", "Pale Green", Family::Green, Group::S0, Value::B00, (247, 251, 247)),
    ("G00", "Jade Green", Family::Green, Group::S0, Value::B0, (234, 245, 246)),
    ("G02", "Spectrum Green", Family::Green, Group::S0, Value::B2, (219, 236, 217)),
    ("G03", "Meadow Green", Family::Green, Group::S0, Value::B3, (176, 222, 127)),
    ("G05", "Emerald Green", Family::Green, Group::S0, Value::B5, (125, 192, 121)),
    ("G07", "Nile Green", Family::Green, Group::S0, Value::B7, (143, 198, 118)),
    ("G09", "Veronese Green", Family::Green, Group::S0, Value::B9, (143, 196, 96)),
    ("G12", "Sea Green", Family::Green, Group::S1, Value::B2, (222, 236, 203)),
    ("G14", "Apple Green", Family::Green, Group::S1, Value::B4, (170, 210, 148)),
    ("G16", "Malachite", Family::Green, Group::S1, Value::B6, (118, 193, 156)),
    ("G17", "Forest Green", Family::Green, Group::S1, Value::B7, (39, 174, 125)),
    ("G19", "Bright Parrot Green", Family::Green, Group::S1, Value::B9, (73, 182, 138)),
    ("G20", "Wax White", Family::Green, Group::S2, Value::B0, (242, 247, 224)),
    ("G21", "Lime Green", Family::Green, Group::S2, Value::B1, (211, 232, 211)),
    ("G24", "Willow", Family::Green, Group::S2, Value::B4, (209, 228, 187)),
    ("G28", "Ocean Green", Family::Green, Group::S2, Value::B8, (35, 150, 101)),
    ("G29", "Pine Tree Green", Family::Green, Group::S2, Value::B9, (62, 134, 103)),
    ("G40", "Dim Green", Family::Green, Group::S4, Value::B0, (236, 244, 227)),
    ("G43", "Pistachio", Family::Green, Group::S4, Value::B3, (146, 179, 92)),
    ("G46", "Mistletoe", Family::Green, Group::S4, Value::B6, (84, 137, 93)),
    ("G82", "Spring Dim Green", Family::Green, Group::S8, Value::B2, (219, 226, 196)),
    ("G85", "Verdigris", Family::Green, Group::S8, Value::B5, (179, 205, 181)),
    ("G94", "Grayish Olive", Family::Green, Group::S9, Value::B4, (170, 179, 142)),
    ("G99", "Olive", Family::Green, Group::S9, Value::B9, (123, 142, 63)),
    // Blue green
    ("BG0000", "Snow Green", Family::BlueGreen, Group::S0, Value::B000, (245, 249, 246)),
    ("BG000", "Pale Aqua", Family::BlueGreen, Group::S0, Value::B00, (247, 251, 249)),
    ("BG01", "Aqua Blue", Family::BlueGreen, Group::S0, Value::B1, (214, 235, 248)),
    ("BG02", "New Blue", Family::BlueGreen, Group::S0, Value::B2, (212, 235, 237)),
    ("BG05", "Holiday Blue", Family::BlueGreen, Group::S0, Value::B5, (156, 213, 230)),
    ("BG07", "Petroleum Blue", Family::BlueGreen, Group::S0, Value::B7, (51, 184, 210)),
    ("BG09", "Blue Green", Family::BlueGreen, Group::S0, Value::B9, (9, 177, 205)),
    ("BG10", "Cool Shadow", Family::BlueGreen, Group::S1, Value::B0, (231, 243, 242)),
    ("BG11", "Moon White", Family::BlueGreen, Group::S1, Value::B1, (218, 238, 242)),
    ("BG13", "Mint Green", Family::BlueGreen, Group::S1, Value::B3, (211, 234, 235)),
    ("BG15", "Aqua", Family::BlueGreen, Group::S1, Value::B5, (181, 221, 214)),
    ("BG18", "Teal Blue", Family::BlueGreen, Group::S1, Value::B8, (86, 190, 179)),
    ("BG23", "Coral Sea", Family::BlueGreen, Group::S2, Value::B3, (205, 231, 224)),
    ("BG32", "Aqua Mint", Family::BlueGreen, Group::S3, Value::B2, (204, 230, 219)),
    ("BG34", "Horizon Green", Family::BlueGreen, Group::S3, Value::B4, (184, 222, 219)),
    ("BG45", "Nile Blue", Family::BlueGreen, Group::S4, Value::B5, (193, 226, 227)),
    ("BG49", "Duck Blue", Family::BlueGreen, Group::S4, Value::B9, (21, 178, 188)),
    ("BG53", "Ice Mint", Family::BlueGreen, Group::S5, Value::B3, (92, 182, 189)),
    ("BG57", "Jasper", Family::BlueGreen, Group::S5, Value::B7, (4, 162, 173)),
    ("BG70", "Ocean Mist", Family::BlueGreen, Group::S7, Value::B0, (229, 238, 227)),
    ("BG72", "Ice Ocean", Family::BlueGreen, Group::S7, Value::B2, (136, 190, 193)),
    ("BG75", "Abyss Green", Family::BlueGreen, Group::S7, Value::B5, (181, 221, 214)),
    ("BG78", "Bronze", Family::BlueGreen, Group::S7, Value::B8, (72, 117, 107)),
    ("BG90", "Gray Sky", Family::BlueGreen, Group::S9, Value::B0, (209, 204, 184)),
    ("BG93", "Green Gray", Family::BlueGreen, Group::S9, Value::B3, (203, 206, 196)),
    ("BG96", "Bush", Family::BlueGreen, Group::S9, Value::B6, (154, 176, 158)),
    ("BG99", "Flagstone Blue", Family::BlueGreen, Group::S9, Value::B9, (137, 169, 150)),
    // Blue
    ("B0000", "Pale Celestine", Family::Blue, Group::S0, Value::B000, (246, 251, 254)),
    ("B000", "Pale Porcelain Blue", Family::Blue, Group::S0, Value::B00, (237, 246, 246)),
    ("B00", "Frost Blue", Family::Blue, Group::S0, Value::B0, (234, 246, 249)),
    ("B01", "Mint Blue", Family::Blue, Group::S0, Value::B1, (225, 241, 243)),
    ("B02", "Robin's Egg Blue", Family::Blue, Group::S0, Value::B2, (197, 230, 240)),
    ("B04", "Tahitian Blue", Family::Blue, Group::S0, Value::B4, (141, 209, 231)),
    ("B05", "Process Blue", Family::Blue, Group::S0, Value::B5, (100, 197, 229)),
    ("B06", "Peacock Blue", Family::Blue, Group::S0, Value::B6, (0, 172, 226)),
    ("B12", "Ice Blue", Family::Blue, Group::S1, Value::B2, (214, 234, 240)),
    ("B14", "Light Blue", Family::Blue, Group::S1, Value::B4, (141, 209, 235)),
    ("B16", "Chanine Blue", Family::Blue, Group::S1, Value::B6, (1, 186, 231)),
    ("B18", "Lapis Lazuli", Family::Blue, Group::S1, Value::B8, (41, 145, 201)),
    ("B21", "Baby Blue", Family::Blue, Group::S2, Value::B1, (230, 241, 250)),
    ("B23", "Phthalo Blue", Family::Blue, Group::S2, Value::B3, (171, 203, 233)),
    ("B24", "Sky", Family::Blue, Group::S2, Value::B4, (163, 213, 241)),
    ("B26", "Cobalt Blue", Family::Blue, Group::S2, Value::B6, (127, 187, 227)),
    ("B28", "Royal Blue", Family::Blue, Group::S2, Value::B8, (21, 113, 176)),
    ("B29", "Ultramarine", Family::Blue, Group::S2, Value::B9, (0, 119, 186)),
    ("B32", "Pale Blue", Family::Blue, Group::S3, Value::B2, (234, 243, 247)),
    ("B34", "Manganese Blue", Family::Blue, Group::S3, Value::B4, (155, 203, 235)),
    ("B37", "Antwerp Blue", Family::Blue, Group::S3, Value::B7, (4, 114, 163)),
    ("B39", "Prussian Blue", Family::Blue, Group::S3, Value::B9, (40, 106, 167)),
    ("B41", "Powder Blue", Family::Blue, Group::S4, Value::B1, (234, 243, 251)),
    ("B45", "Smoky Blue", Family::Blue, Group::S4, Value::B5, (143, 199, 234)),
    ("B52", "Soft Greenish Blue", Family::Blue, Group::S5, Value::B2, (193, 214, 225)),
    ("B60", "Pale Blue Gray", Family::Blue, Group::S6, Value::B0, (228, 232, 244)),
    ("B63", "Light Hydrangea", Family::Blue, Group::S6, Value::B3, (188, 198, 226)),
    // Listed with the same group and value as B63, not the value its code
    // suggests; kept as listed.
    ("B66", "Clematis", Family::Blue, Group::S6, Value::B3, (100, 115, 180)),
    ("B69", "Stratospheric Blue", Family::Blue, Group::S6, Value::B9, (25, 103, 167)),
    ("B79", "Iris", Family::Blue, Group::S7, Value::B9, (49, 65, 143)),
    ("B91", "Pale Grayish Blue", Family::Blue, Group::S9, Value::B1, (225, 233, 237)),
    ("B93", "Light Crockery Blue", Family::Blue, Group::S9, Value::B3, (171, 203, 223)),
    ("B95", "Light Grayish Cobalt", Family::Blue, Group::S9, Value::B5, (136, 176, 202)),
    ("B97", "Night Blue", Family::Blue, Group::S9, Value::B7, (69, 128, 157)),
    ("B99", "Agate", Family::Blue, Group::S9, Value::B9, (0, 77, 122)),
    // Earth
    ("E0000", "Floral White", Family::Earth, Group::S0, Value::B000, (255, 250, 243)),
    ("E000", "Pale Fruit Pink", Family::Earth, Group::S0, Value::B00, (255, 248, 241)),
    ("E00", "Cotton Pearl", Family::Earth, Group::S0, Value::B0, (255, 246, 238)),
    ("E01", "Pink Flamingo", Family::Earth, Group::S0, Value::B1, (255, 242, 233)),
    ("E02", "Fruit Pink", Family::Earth, Group::S0, Value::B2, (255, 241, 230)),
    ("E04", "Lipstick Rose", Family::Earth, Group::S0, Value::B4, (236, 202, 206)),
    ("E07", "Light Mahogany", Family::Earth, Group::S0, Value::B7, (217, 146, 120)),
    ("E08", "Brown", Family::Earth, Group::S0, Value::B8, (213, 116, 92)),
    ("E09", "Burnt Sienna", Family::Earth, Group::S0, Value::B9, (226, 116, 83)),
    ("E11", "Barley Beige", Family::Earth, Group::S1, Value::B1, (255, 239, 222)),
    ("E13", "Desert Sand", Family::Earth, Group::S1, Value::B3, (239, 210, 187)),
    ("E15", "Earthenware", Family::Earth, Group::S1, Value::B5, (253, 199, 151)),
    ("E17", "Reddish Brass", Family::Earth, Group::S1, Value::B7, (196, 102, 85)),
    ("E18", "Copper", Family::Earth, Group::S1, Value::B8, (151, 86, 74)),
    ("E19", "Redwood", Family::Earth, Group::S1, Value::B9, (206, 84, 37)),
    ("E21", "Soft Sun", Family::Earth, Group::S2, Value::B1, (255, 233, 210)),
    ("E23", "Hazelnut", Family::Earth, Group::S2, Value::B3, (170, 106, 75)),
    ("E25", "Caribe Cocoa", Family::Earth, Group::S2, Value::B5, (223, 182, 147)),
    ("E27", "Milk Chocolate", Family::Earth, Group::S2, Value::B7, (172, 134, 109)),
    ("E29", "Burnt Umber", Family::Earth, Group::S2, Value::B9, (144, 63, 10)),
    ("E30", "Bisque", Family::Earth, Group::S3, Value::B0, (247, 239, 207)),
    ("E31", "Brick Beige", Family::Earth, Group::S3, Value::B1, (246, 236, 215)),
    ("E33", "Sand", Family::Earth, Group::S3, Value::B3, (246, 220, 189)),
    ("E34", "Toast", Family::Earth, Group::S3, Value::B4, (245, 215, 179)),
    ("E35", "Chamois", Family::Earth, Group::S3, Value::B5, (238, 210, 178)),
    ("E37", "Sepia", Family::Earth, Group::S3, Value::B7, (217, 165, 102)),
    ("E39", "Leather", Family::Earth, Group::S3, Value::B9, (210, 125, 51)),
    ("E40", "Brick White", Family::Earth, Group::S4, Value::B0, (247, 240, 229)),
    ("E41", "Pearl White", Family::Earth, Group::S4, Value::B1, (255, 244, 232)),
    ("E42", "Sand White", Family::Earth, Group::S4, Value::B2, (242, 232, 211)),
    ("E43", "Dull Ivory", Family::Earth, Group::S4, Value::B3, (240, 230, 203)),
    ("E44", "Clay", Family::Earth, Group::S4, Value::B4, (212, 201, 182)),
    ("E47", "Dark Brown", Family::Earth, Group::S4, Value::B7, (154, 130, 108)),
    ("E49", "Dark Bark", Family::Earth, Group::S4, Value::B9, (122, 93, 69)),
    ("E50", "Egg Shell", Family::Earth, Group::S5, Value::B0, (247, 240, 241)),
    ("E51", "Milky White", Family::Earth, Group::S5, Value::B1, (255, 241, 222)),
    ("E53", "Raw Silk", Family::Earth, Group::S5, Value::B3, (246, 236, 204)),
    ("E55", "Light Camel", Family::Earth, Group::S5, Value::B5, (245, 230, 196)),
    ("E57", "Light Walnut", Family::Earth, Group::S5, Value::B7, (194, 154, 106)),
    ("E59", "Walnut", Family::Earth, Group::S5, Value::B9, (173, 144, 118)),
    ("E70", "Ash Rose", Family::Earth, Group::S7, Value::B0, (241, 233, 226)),
    ("E71", "Champagne", Family::Earth, Group::S7, Value::B1, (235, 225, 218)),
    ("E74", "Cocoa Brown", Family::Earth, Group::S7, Value::B4, (181, 153, 140)),
    ("E77", "Maroon", Family::Earth, Group::S7, Value::B7, (148, 113, 87)),
    ("E79", "Cashew", Family::Earth, Group::S7, Value::B9, (82, 56, 45)),
    ("E81", "Ivory", Family::Earth, Group::S8, Value::B1, (220, 205, 152)),
    ("E84", "Khaki", Family::Earth, Group::S8, Value::B4, (180, 149, 95)),
    ("E87", "Fig", Family::Earth, Group::S8, Value::B7, (91, 77, 56)),
    ("E89", "Pecan", Family::Earth, Group::S8, Value::B9, (123, 116, 106)),
    ("E93", "Tea Rose", Family::Earth, Group::S9, Value::B3, (254, 219, 194)),
    ("E95", "Tea Orange", Family::Earth, Group::S9, Value::B5, (254, 199, 136)),
    ("E97", "Deep Orange", Family::Earth, Group::S9, Value::B7, (243, 169, 98)),
    ("E99", "Baked Clay", Family::Earth, Group::S9, Value::B9, (192, 101, 8)),
    // Cool gray
    ("C-00", "Cool Gray No.00", Family::CoolGray, Group::Undefined, Value::B0, (241, 244, 246)),
    ("C-0", "Cool Gray No.0", Family::CoolGray, Group::Undefined, Value::B00, (237, 242, 244)),
    ("C-1", "Cool Gray No.1", Family::CoolGray, Group::Undefined, Value::B0, (228, 234, 237)),
    ("C-2", "Cool Gray No.2", Family::CoolGray, Group::Undefined, Value::B1, (217, 224, 228)),
    ("C-3", "Cool Gray No.3", Family::CoolGray, Group::Undefined, Value::B2, (208, 213, 218)),
    ("C-4", "Cool Gray No.4", Family::CoolGray, Group::Undefined, Value::B3, (185, 193, 199)),
    ("C-5", "Cool Gray No.5", Family::CoolGray, Group::Undefined, Value::B4, (164, 174, 178)),
    ("C-6", "Cool Gray No.6", Family::CoolGray, Group::Undefined, Value::B5, (147, 155, 161)),
    ("C-7", "Cool Gray No.7", Family::CoolGray, Group::Undefined, Value::B6, (119, 127, 131)),
    ("C-8", "Cool Gray No.8", Family::CoolGray, Group::Undefined, Value::B7, (99, 105, 109)),
    ("C-9", "Cool Gray No.9", Family::CoolGray, Group::Undefined, Value::B8, (83, 81, 80)),
    ("C-10", "Cool Gray No.10", Family::CoolGray, Group::Undefined, Value::B9, (31, 30, 30)),
    // Neutral gray
    ("N-0", "Neutral Gray No.0", Family::NeutralGray, Group::Undefined, Value::B00, (242, 242, 242)),
    ("N-1", "Neutral Gray No.1", Family::NeutralGray, Group::Undefined, Value::B0, (235, 235, 235)),
    ("N-2", "Neutral Gray No.2", Family::NeutralGray, Group::Undefined, Value::B1, (227, 227, 227)),
    ("N-3", "Neutral Gray No.3", Family::NeutralGray, Group::Undefined, Value::B2, (220, 220, 220)),
    ("N-4", "Neutral Gray No.4", Family::NeutralGray, Group::Undefined, Value::B3, (201, 201, 201)),
    ("N-5", "Neutral Gray No.5", Family::NeutralGray, Group::Undefined, Value::B4, (183, 182, 182)),
    ("N-6", "Neutral Gray No.6", Family::NeutralGray, Group::Undefined, Value::B5, (164, 164, 164)),
    ("N-7", "Neutral Gray No.7", Family::NeutralGray, Group::Undefined, Value::B6, (133, 132, 133)),
    ("N-8", "Neutral Gray No.8", Family::NeutralGray, Group::Undefined, Value::B7, (111, 110, 110)),
    ("N-9", "Neutral Gray No.9", Family::NeutralGray, Group::Undefined, Value::B8, (83, 81, 80)),
    ("N-10", "Neutral Gray No.10", Family::NeutralGray, Group::Undefined, Value::B9, (31, 30, 30)),
    // Toner gray
    ("T-0", "Toner Gray No.0", Family::TonerGray, Group::Undefined, Value::B00, (242, 242, 242)),
    ("T-1", "Toner Gray No.1", Family::TonerGray, Group::Undefined, Value::B0, (240, 240, 238)),
    ("T-2", "Toner Gray No.2", Family::TonerGray, Group::Undefined, Value::B1, (233, 233, 230)),
    ("T-3", "Toner Gray No.3", Family::TonerGray, Group::Undefined, Value::B2, (221, 220, 215)),
    ("T-4", "Toner Gray No.4", Family::TonerGray, Group::Undefined, Value::B3, (202, 200, 196)),
    ("T-5", "Toner Gray No.5", Family::TonerGray, Group::Undefined, Value::B4, (184, 181, 176)),
    ("T-6", "Toner Gray No.6", Family::TonerGray, Group::Undefined, Value::B5, (164, 162, 158)),
    ("T-7", "Toner Gray No.7", Family::TonerGray, Group::Undefined, Value::B6, (133, 131, 128)),
    ("T-8", "Toner Gray No.8", Family::TonerGray, Group::Undefined, Value::B7, (111, 109, 106)),
    ("T-9", "Toner Gray No.9", Family::TonerGray, Group::Undefined, Value::B8, (83, 80, 77)),
    ("T-10", "Toner Gray No.10", Family::TonerGray, Group::Undefined, Value::B9, (31, 30, 30)),
    // Warm gray
    ("W-00", "Warm Gray No.00", Family::WarmGray, Group::Undefined, Value::B00, (247, 247, 241)),
    ("W-0", "Warm Gray No.0", Family::WarmGray, Group::Undefined, Value::B00, (247, 246, 240)),
    ("W-1", "Warm Gray No.1", Family::WarmGray, Group::Undefined, Value::B0, (238, 237, 231)),
    ("W-2", "Warm Gray No.2", Family::WarmGray, Group::Undefined, Value::B1, (238, 237, 233)),
    ("W-3", "Warm Gray No.3", Family::WarmGray, Group::Undefined, Value::B2, (221, 220, 213)),
    ("W-4", "Warm Gray No.4", Family::WarmGray, Group::Undefined, Value::B3, (202, 201, 194)),
    ("W-5", "Warm Gray No.5", Family::WarmGray, Group::Undefined, Value::B4, (184, 182, 176)),
    ("W-6", "Warm Gray No.6", Family::WarmGray, Group::Undefined, Value::B5, (164, 163, 156)),
    ("W-7", "Warm Gray No.7", Family::WarmGray, Group::Undefined, Value::B6, (134, 132, 127)),
    ("W-8", "Warm Gray No.8", Family::WarmGray, Group::Undefined, Value::B7, (111, 110, 105)),
    ("W-9", "Warm Gray No.9", Family::WarmGray, Group::Undefined, Value::B8, (83, 80, 76)),
    ("W-10", "Warm Gray No.10", Family::WarmGray, Group::Undefined, Value::B9, (31, 30, 29)),
    // Colorless blender and blacks
    ("0", "Colorless Blender", Family::Achromatic, Group::Undefined, Value::Undefined, (255, 255, 255)),
    ("100", "Black", Family::Achromatic, Group::S0, Value::B0, (1, 1, 1)),
    ("110", "Special Black", Family::Achromatic, Group::S1, Value::B0, (1, 1, 1)),
    // Fluorescent
    ("FV", "Fluorescent Violet", Family::Fluorescent, Group::Undefined, Value::Undefined, (132, 112, 178)),
    ("FRV", "Fluorescent Pink", Family::Fluorescent, Group::Undefined, Value::Undefined, (249, 176, 203)),
    ("FYR", "Fluorescent Orange", Family::Fluorescent, Group::Undefined, Value::Undefined, (255, 215, 164)),
    ("FY", "Fluorescent Yellow", Family::Fluorescent, Group::Undefined, Value::Undefined, (255, 249, 160)),
    ("FYG", "Fluorescent Yellow Green", Family::Fluorescent, Group::Undefined, Value::Undefined, (220, 228, 170)),
    ("FG", "Fluorescent Green", Family::Fluorescent, Group::Undefined, Value::Undefined, (175, 206, 21)),
    ("FBG", "Fluorescent Blue Green", Family::Fluorescent, Group::Undefined, Value::Undefined, (128, 205, 231)),
    ("FB", "Fluorescent Blue", Family::Fluorescent, Group::Undefined, Value::Undefined, (11, 147, 205)),
];

/// The color that a table entry describes.
pub open spec fn record_color(t: Record) -> Color {
    Color {
        code: t.0,
        name: t.1,
        family: t.2,
        group: t.3,
        value: t.4,
        rgb: Rgb { r: t.5.0, g: t.5.1, b: t.5.2 },
    }
}

/// The catalog as a sequence of colors, in table order.
pub open spec fn catalog() -> Seq<Color> {
    COLOR_TABLE@.map_values(|t: Record| record_color(t))
}

fn entry(i: usize) -> (c: Color)
    requires
        i < CATALOG_LEN,
    ensures
        c == catalog()[i as int],
{
    let t = COLOR_TABLE[i];
    Color::new(t.0, t.1, t.2, t.3, t.4, Rgb::new(t.5.0, t.5.1, t.5.2))
}

/// The color at position `i` of the catalog, if there is one.
pub fn color_at(i: usize) -> (r: Option<Color>)
    ensures
        i < catalog().len() ==> r == Some(catalog()[i as int]),
        i >= catalog().len() ==> r is None,
{
    if i < CATALOG_LEN {
        Some(entry(i))
    } else {
        None
    }
}

/// Every color of the catalog, in catalog order.
pub fn all_colors() -> (r: Vec<Color>)
    ensures
        r@ == catalog(),
{
    let mut v: Vec<Color> = Vec::new();
    let mut i: usize = 0;
    while i < CATALOG_LEN
        invariant
            i <= CATALOG_LEN,
            catalog().len() == CATALOG_LEN,
            v@ == catalog().take(i as int),
        decreases CATALOG_LEN - i,
    {
        v.push(entry(i));
        i = i + 1;
        assert(v@ =~= catalog().take(i as int));
    }
    assert(v@ =~= catalog());
    v
}

/// The catalog entry whose code is exactly `code`, if there is one. Codes
/// are unique in the catalog, so the entry chosen is the only match.
pub open spec fn find_code(code: Seq<char>) -> Option<Color> {
    if exists|i: int| 0 <= i < catalog().len() && (#[trigger] catalog()[i]).code@ == code {
        Some(
            catalog()[choose|i: int|
                0 <= i < catalog().len() && (#[trigger] catalog()[i]).code@ == code],
        )
    } else {
        None
    }
}

/// Looks a color up by its code, compared exactly, case as stored.
pub fn lookup(code: &str) -> (r: Option<Color>)
    ensures
        r == find_code(code@),
        r is None <==> forall|i: int|
            0 <= i < catalog().len() ==> (#[trigger] catalog()[i]).code@ != code@,
{
    let mut i: usize = 0;
    while i < CATALOG_LEN
        invariant
            i <= CATALOG_LEN,
            catalog().len() == CATALOG_LEN,
            forall|k: int| 0 <= k < i ==> (#[trigger] catalog()[k]).code@ != code@,
        decreases CATALOG_LEN - i,
    {
        if same_text(COLOR_TABLE[i].0, code) {
            proof {
                lemma_codes_unique();
                assert(catalog()[i as int].code@ == code@);
            }
            return Some(entry(i));
        }
        i = i + 1;
    }
    None
}

/// Enumerating the catalog is repeatable: any two enumerations give the
/// same colors in the same order, one for each table entry.
pub proof fn lemma_enumeration_repeatable(first: Seq<Color>, second: Seq<Color>)
    requires
        first == catalog(),
        second == catalog(),
    ensures
        first == second,
        first.len() == CATALOG_LEN,
        first.len() == COLOR_TABLE@.len(),
{
}

/// Looking up the code of any catalog entry gives back exactly that entry.
pub proof fn lemma_lookup_reflexive(i: int)
    requires
        0 <= i < catalog().len(),
    ensures
        find_code(catalog()[i].code@) == Some(catalog()[i]),
{
    lemma_codes_unique();
    let code = catalog()[i].code@;
    assert(exists|k: int| 0 <= k < catalog().len() && (#[trigger] catalog()[k]).code@ == code);
}

/// Each channel of each catalog color lies within `0..=255`.
pub proof fn lemma_channels_in_range()
    ensures
        forall|i: int|
            0 <= i < catalog().len() ==> {
                let c = #[trigger] catalog()[i];
                &&& 0 <= c.rgb.r <= 255
                &&& 0 <= c.rgb.g <= 255
                &&& 0 <= c.rgb.b <= 255
            },
{
}

} // verus!
