//! The jamo of Hangul: initial consonants, medial vowels and final consonants,
//! in the order of their code points in the Hangul Jamo blocks.

use vstd::prelude::*;

verus! {

/// An initial consonant of a syllable. The 19 modern initials come first,
/// the archaic ones follow.
#[derive(Clone, Copy, Debug, PartialEq, Eq, Structural)]
pub enum Choseong {
    /// 기윽 (U+1100)
    Kiyeok,
    /// 된기윽 (U+1101)
    SsangKiyeok,
    /// 니은 (U+1102)
    Nieun,
    /// 디읃 (U+1103)
    Tikeut,
    /// 된디읃 (U+1104)
    SsangTikeut,
    /// 리을 (U+1105)
    Rieul,
    /// 미음 (U+1106)
    Mieum,
    /// 비읍 (U+1107)
    Pieup,
    /// 된비읍 (U+1108)
    SsangPieup,
    /// 시읏 (U+1109)
    Sios,
    /// 된시읏 (U+110A)
    SsangSios,
    /// 이응 (U+110B)
    Ieung,
    /// 지읒 (U+110C)
    Cieuc,
    /// 된지읒 (U+110D)
    SsangCieuc,
    /// 치읓 (U+110E)
    Chieuch,
    /// 키읔 (U+110F)
    Khieukh,
    /// 티읕 (U+1110)
    Thieuth,
    /// 피읖 (U+1111)
    Phieuph,
    /// 히읗 (U+1112)
    Hieuh,
    /// 니은기윽 (U+1113)
    NieunKiyeok,
    /// 두니은 (U+1114)
    SsangNieun,
    /// 니은디읃 (U+1115)
    NieunTikeut,
    /// 니은비읍 (U+1116)
    NieunPieup,
    /// 디읃기윽 (U+1117)
    TikeutKiyeok,
    /// 리을니은 (U+1118)
    RieulNieun,
    /// 두리을 (U+1119)
    SsangRieul,
    /// 리을히읗 (U+111A)
    RieulHieuh,
    /// 가벼운리을 (U+111B)
    KapyeounRieul,
    /// 미음비읍 (U+111C)
    MieumPieup,
    /// 가벼운미음 (U+111D)
    KapyeounMieum,
    /// 비읍기윽 (U+111E)
    PieupKiyeok,
    /// 비읍니은 (U+111F)
    PieupNieun,
    /// 비읍디읃 (U+1120)
    PieupTikeut,
    /// 비읍시읏 (U+1121)
    PieupSios,
    /// 비읍시읏기윽 (U+1122)
    PieupSiosKiyeok,
    /// 비읍시읏디읃 (U+1123)
    PieupSiosTikeut,
    /// 비읍시읏비읍 (U+1124)
    PieupSiosPieup,
    /// 비읍두시읏 (U+1125)
    PieupSsangSios,
    /// 비읍시읏지읒 (U+1126)
    PieupSiosCieuc,
    /// 비읍지읒 (U+1127)
    PieupCieuc,
    /// 비읍치읓 (U+1128)
    PieupChieuch,
    /// 비읍티읕 (U+1129)
    PieupThieuth,
    /// 비읍피읖 (U+112A)
    PieupPhieuph,
    /// 가벼운비읍 (U+112B)
    KapyeounPieup,
    /// 가벼운두비읍 (U+112C)
    KapyeounSsangPieup,
    /// 시읏기윽 (U+112D)
    SiosKiyeok,
    /// 시읏니은 (U+112E)
    SiosNieun,
    /// 시읏디읃 (U+112F)
    SiosTikeut,
    /// 시읏리을 (U+1130)
    SiosRieul,
    /// 시읏미음 (U+1131)
    SiosMieum,
    /// 시읏비읍 (U+1132)
    SiosPieup,
    /// 시읏비읍기윽 (U+1133)
    SiosPieupKiyeok,
    /// 시읏두시읏 (U+1134)
    SiosSsangSios,
    /// 시읏이응 (U+1135)
    SiosIeung,
    /// 시읏지읒 (U+1136)
    SiosCieuc,
    /// 시읏치읓 (U+1137)
    SiosChieuch,
    /// 시읏키읔 (U+1138)
    SiosKhieukh,
    /// 시읏티읕 (U+1139)
    SiosThieuth,
    /// 시읏피읖 (U+113A)
    SiosPhieuph,
    /// 시읏히읗 (U+113B)
    SiosHieuh,
    /// 이머리소리시읏 (U+113C)
    ChitueumSios,
    /// 이머리소리두시읏 (U+113D)
    ChitueumSsangSios,
    /// 이몸소리시읏 (U+113E)
    CeongchieumSios,
    /// 이몸소리두시읏 (U+113F)
    CeongchieumSsangSios,
    /// 반이소리 (U+1140)
    Pansios,
    /// 이응기윽 (U+1141)
    IeungKiyeok,
    /// 이응디읃 (U+1142)
    IeungTikeut,
    /// 이응미음 (U+1143)
    IeungMieum,
    /// 이응비읍 (U+1144)
    IeungPieup,
    /// 이응시읏 (U+1145)
    IeungSios,
    /// 이응반이소리 (U+1146)
    IeungPansios,
    /// 두이응 (U+1147)
    SsangIeung,
    /// 이응지읒 (U+1148)
    IeungCieuc,
    /// 이응치읓 (U+1149)
    IeungChieuch,
    /// 이응티읕 (U+114A)
    IeungThieuth,
    /// 이응피읖 (U+114B)
    IeungPhieuph,
    /// 어금이소리 (U+114C)
    Yesieung,
    /// 지읒이응 (U+114D)
    CieucIeung,
    /// 이머리소리지읒 (U+114E)
    ChitueumCieuc,
    /// 이머리소리두지읒 (U+114F)
    ChitueumSsangCieuc,
    /// 이몸소리지읒 (U+1150)
    CeongchieumCieuc,
    /// 이몸소리두지읒 (U+1151)
    CeongchieumSsangCieuc,
    /// 치읓키읔 (U+1152)
    ChieuchKhieukh,
    /// 치읓히읗 (U+1153)
    ChieuchHieuh,
    /// 이머리소리치읓 (U+1154)
    ChitueumChieuch,
    /// 이몸소리치읓 (U+1155)
    CeongchieumChieuch,
    /// 피읖비읍 (U+1156)
    PhieuphPieup,
    /// 가벼운피읖 (U+1157)
    KapyeounPhieuph,
    /// 두히읗 (U+1158)
    SsangHieuh,
    /// 목구멍터집소리 (U+1159)
    Yeorinhieuh,
    /// 기윽디읃 (U+115A)
    KiyeokTikeut,
    /// 니은시읏 (U+115B)
    NieunSios,
    /// 니은지읒 (U+115C)
    NieunCieuc,
    /// 니은히읗 (U+115D)
    NieunHieuh,
    /// 디읃리을 (U+115E)
    TikeutRieul,
    /// 디읃미음 (U+A960)
    TikeutMieum,
    /// 디읃비읍 (U+A961)
    TikeutPieup,
    /// 디읃시읏 (U+A962)
    TikeutSios,
    /// 디읃지읒 (U+A963)
    TikeutCieuc,
    /// 리을기윽 (U+A964)
    RieulKiyeok,
    /// 리을두기윽 (U+A965)
    RieulSsangKiyeok,
    /// 리을디읃 (U+A966)
    RieulTikeut,
    /// 리을두디읃 (U+A967)
    RieulSsangTikeut,
    /// 리을미음 (U+A968)
    RieulMieum,
    /// 리을비읍 (U+A969)
    RieulPieup,
    /// 리을두비읍 (U+A96A)
    RieulSsangPieup,
    /// 리을가벼운비읍 (U+A96B)
    RieulKapyeounPieup,
    /// 리을시읏 (U+A96C)
    RieulSios,
    /// 리을지읒 (U+A96D)
    RieulCieuc,
    /// 리을키읔 (U+A96E)
    RieulKhieukh,
    /// 미음기윽 (U+A96F)
    MieumKiyeok,
    /// 미음디읃 (U+A970)
    MieumTikeut,
    /// 미음시읏 (U+A971)
    MieumSios,
    /// 비읍시읏티읕 (U+A972)
    PieupSiosThieuth,
    /// 비읍키읔 (U+A973)
    PieupKhieukh,
    /// 비읍히읗 (U+A974)
    PieupHieuh,
    /// 두시읏비읍 (U+A975)
    SsangSiosPieup,
    /// 이응리을 (U+A976)
    IeungRieul,
    /// 이응히읗 (U+A977)
    IeungHieuh,
    /// 두지읒히읗 (U+A978)
    SsangCieucHieuh,
    /// 두티읕 (U+A979)
    SsangThieuth,
    /// 피읖히읗 (U+A97A)
    PhieuphHieuh,
    /// 히읗시읏 (U+A97B)
    HieuhSios,
    /// 두목구멍터집소리 (U+A97C)
    SsangYeorinhieuh,
}

impl Choseong {
    /// The filler that stands for a missing initial consonant.
    pub const FILLER: char = '\u{115F}';

    /// The position of the jamo in the enumeration, which follows the order of
    /// the Unicode code points.
    pub open spec fn index(self) -> nat {
        match self {
            Choseong::Kiyeok => 0,
            Choseong::SsangKiyeok => 1,
            Choseong::Nieun => 2,
            Choseong::Tikeut => 3,
            Choseong::SsangTikeut => 4,
            Choseong::Rieul => 5,
            Choseong::Mieum => 6,
            Choseong::Pieup => 7,
            Choseong::SsangPieup => 8,
            Choseong::Sios => 9,
            Choseong::SsangSios => 10,
            Choseong::Ieung => 11,
            Choseong::Cieuc => 12,
            Choseong::SsangCieuc => 13,
            Choseong::Chieuch => 14,
            Choseong::Khieukh => 15,
            Choseong::Thieuth => 16,
            Choseong::Phieuph => 17,
            Choseong::Hieuh => 18,
            Choseong::NieunKiyeok => 19,
            Choseong::SsangNieun => 20,
            Choseong::NieunTikeut => 21,
            Choseong::NieunPieup => 22,
            Choseong::TikeutKiyeok => 23,
            Choseong::RieulNieun => 24,
            Choseong::SsangRieul => 25,
            Choseong::RieulHieuh => 26,
            Choseong::KapyeounRieul => 27,
            Choseong::MieumPieup => 28,
            Choseong::KapyeounMieum => 29,
            Choseong::PieupKiyeok => 30,
            Choseong::PieupNieun => 31,
            Choseong::PieupTikeut => 32,
            Choseong::PieupSios => 33,
            Choseong::PieupSiosKiyeok => 34,
            Choseong::PieupSiosTikeut => 35,
            Choseong::PieupSiosPieup => 36,
            Choseong::PieupSsangSios => 37,
            Choseong::PieupSiosCieuc => 38,
            Choseong::PieupCieuc => 39,
            Choseong::PieupChieuch => 40,
            Choseong::PieupThieuth => 41,
            Choseong::PieupPhieuph => 42,
            Choseong::KapyeounPieup => 43,
            Choseong::KapyeounSsangPieup => 44,
            Choseong::SiosKiyeok => 45,
            Choseong::SiosNieun => 46,
            Choseong::SiosTikeut => 47,
            Choseong::SiosRieul => 48,
            Choseong::SiosMieum => 49,
            Choseong::SiosPieup => 50,
            Choseong::SiosPieupKiyeok => 51,
            Choseong::SiosSsangSios => 52,
            Choseong::SiosIeung => 53,
            Choseong::SiosCieuc => 54,
            Choseong::SiosChieuch => 55,
            Choseong::SiosKhieukh => 56,
            Choseong::SiosThieuth => 57,
            Choseong::SiosPhieuph => 58,
            Choseong::SiosHieuh => 59,
            Choseong::ChitueumSios => 60,
            Choseong::ChitueumSsangSios => 61,
            Choseong::CeongchieumSios => 62,
            Choseong::CeongchieumSsangSios => 63,
            Choseong::Pansios => 64,
            Choseong::IeungKiyeok => 65,
            Choseong::IeungTikeut => 66,
            Choseong::IeungMieum => 67,
            Choseong::IeungPieup => 68,
            Choseong::IeungSios => 69,
            Choseong::IeungPansios => 70,
            Choseong::SsangIeung => 71,
            Choseong::IeungCieuc => 72,
            Choseong::IeungChieuch => 73,
            Choseong::IeungThieuth => 74,
            Choseong::IeungPhieuph => 75,
            Choseong::Yesieung => 76,
            Choseong::CieucIeung => 77,
            Choseong::ChitueumCieuc => 78,
            Choseong::ChitueumSsangCieuc => 79,
            Choseong::CeongchieumCieuc => 80,
            Choseong::CeongchieumSsangCieuc => 81,
            Choseong::ChieuchKhieukh => 82,
            Choseong::ChieuchHieuh => 83,
            Choseong::ChitueumChieuch => 84,
            Choseong::CeongchieumChieuch => 85,
            Choseong::PhieuphPieup => 86,
            Choseong::KapyeounPhieuph => 87,
            Choseong::SsangHieuh => 88,
            Choseong::Yeorinhieuh => 89,
            Choseong::KiyeokTikeut => 90,
            Choseong::NieunSios => 91,
            Choseong::NieunCieuc => 92,
            Choseong::NieunHieuh => 93,
            Choseong::TikeutRieul => 94,
            Choseong::TikeutMieum => 95,
            Choseong::TikeutPieup => 96,
            Choseong::TikeutSios => 97,
            Choseong::TikeutCieuc => 98,
            Choseong::RieulKiyeok => 99,
            Choseong::RieulSsangKiyeok => 100,
            Choseong::RieulTikeut => 101,
            Choseong::RieulSsangTikeut => 102,
            Choseong::RieulMieum => 103,
            Choseong::RieulPieup => 104,
            Choseong::RieulSsangPieup => 105,
            Choseong::RieulKapyeounPieup => 106,
            Choseong::RieulSios => 107,
            Choseong::RieulCieuc => 108,
            Choseong::RieulKhieukh => 109,
            Choseong::MieumKiyeok => 110,
            Choseong::MieumTikeut => 111,
            Choseong::MieumSios => 112,
            Choseong::PieupSiosThieuth => 113,
            Choseong::PieupKhieukh => 114,
            Choseong::PieupHieuh => 115,
            Choseong::SsangSiosPieup => 116,
            Choseong::IeungRieul => 117,
            Choseong::IeungHieuh => 118,
            Choseong::SsangCieucHieuh => 119,
            Choseong::SsangThieuth => 120,
            Choseong::PhieuphHieuh => 121,
            Choseong::HieuhSios => 122,
            Choseong::SsangYeorinhieuh => 123,
        }
    }

    /// The jamo at position `i` of the enumeration.
    pub open spec fn at_index(i: u32) -> Option<Choseong> {
        match i {
            0 => Some(Choseong::Kiyeok),
            1 => Some(Choseong::SsangKiyeok),
            2 => Some(Choseong::Nieun),
            3 => Some(Choseong::Tikeut),
            4 => Some(Choseong::SsangTikeut),
            5 => Some(Choseong::Rieul),
            6 => Some(Choseong::Mieum),
            7 => Some(Choseong::Pieup),
            8 => Some(Choseong::SsangPieup),
            9 => Some(Choseong::Sios),
            10 => Some(Choseong::SsangSios),
            11 => Some(Choseong::Ieung),
            12 => Some(Choseong::Cieuc),
            13 => Some(Choseong::SsangCieuc),
            14 => Some(Choseong::Chieuch),
            15 => Some(Choseong::Khieukh),
            16 => Some(Choseong::Thieuth),
            17 => Some(Choseong::Phieuph),
            18 => Some(Choseong::Hieuh),
            19 => Some(Choseong::NieunKiyeok),
            20 => Some(Choseong::SsangNieun),
            21 => Some(Choseong::NieunTikeut),
            22 => Some(Choseong::NieunPieup),
            23 => Some(Choseong::TikeutKiyeok),
            24 => Some(Choseong::RieulNieun),
            25 => Some(Choseong::SsangRieul),
            26 => Some(Choseong::RieulHieuh),
            27 => Some(Choseong::KapyeounRieul),
            28 => Some(Choseong::MieumPieup),
            29 => Some(Choseong::KapyeounMieum),
            30 => Some(Choseong::PieupKiyeok),
            31 => Some(Choseong::PieupNieun),
            32 => Some(Choseong::PieupTikeut),
            33 => Some(Choseong::PieupSios),
            34 => Some(Choseong::PieupSiosKiyeok),
            35 => Some(Choseong::PieupSiosTikeut),
            36 => Some(Choseong::PieupSiosPieup),
            37 => Some(Choseong::PieupSsangSios),
            38 => Some(Choseong::PieupSiosCieuc),
            39 => Some(Choseong::PieupCieuc),
            40 => Some(Choseong::PieupChieuch),
            41 => Some(Choseong::PieupThieuth),
            42 => Some(Choseong::PieupPhieuph),
            43 => Some(Choseong::KapyeounPieup),
            44 => Some(Choseong::KapyeounSsangPieup),
            45 => Some(Choseong::SiosKiyeok),
            46 => Some(Choseong::SiosNieun),
            47 => Some(Choseong::SiosTikeut),
            48 => Some(Choseong::SiosRieul),
            49 => Some(Choseong::SiosMieum),
            50 => Some(Choseong::SiosPieup),
            51 => Some(Choseong::SiosPieupKiyeok),
            52 => Some(Choseong::SiosSsangSios),
            53 => Some(Choseong::SiosIeung),
            54 => Some(Choseong::SiosCieuc),
            55 => Some(Choseong::SiosChieuch),
            56 => Some(Choseong::SiosKhieukh),
            57 => Some(Choseong::SiosThieuth),
            58 => Some(Choseong::SiosPhieuph),
            59 => Some(Choseong::SiosHieuh),
            60 => Some(Choseong::ChitueumSios),
            61 => Some(Choseong::ChitueumSsangSios),
            62 => Some(Choseong::CeongchieumSios),
            63 => Some(Choseong::CeongchieumSsangSios),
            64 => Some(Choseong::Pansios),
            65 => Some(Choseong::IeungKiyeok),
            66 => Some(Choseong::IeungTikeut),
            67 => Some(Choseong::IeungMieum),
            68 => Some(Choseong::IeungPieup),
            69 => Some(Choseong::IeungSios),
            70 => Some(Choseong::IeungPansios),
            71 => Some(Choseong::SsangIeung),
            72 => Some(Choseong::IeungCieuc),
            73 => Some(Choseong::IeungChieuch),
            74 => Some(Choseong::IeungThieuth),
            75 => Some(Choseong::IeungPhieuph),
            76 => Some(Choseong::Yesieung),
            77 => Some(Choseong::CieucIeung),
            78 => Some(Choseong::ChitueumCieuc),
            79 => Some(Choseong::ChitueumSsangCieuc),
            80 => Some(Choseong::CeongchieumCieuc),
            81 => Some(Choseong::CeongchieumSsangCieuc),
            82 => Some(Choseong::ChieuchKhieukh),
            83 => Some(Choseong::ChieuchHieuh),
            84 => Some(Choseong::ChitueumChieuch),
            85 => Some(Choseong::CeongchieumChieuch),
            86 => Some(Choseong::PhieuphPieup),
            87 => Some(Choseong::KapyeounPhieuph),
            88 => Some(Choseong::SsangHieuh),
            89 => Some(Choseong::Yeorinhieuh),
            90 => Some(Choseong::KiyeokTikeut),
            91 => Some(Choseong::NieunSios),
            92 => Some(Choseong::NieunCieuc),
            93 => Some(Choseong::NieunHieuh),
            94 => Some(Choseong::TikeutRieul),
            95 => Some(Choseong::TikeutMieum),
            96 => Some(Choseong::TikeutPieup),
            97 => Some(Choseong::TikeutSios),
            98 => Some(Choseong::TikeutCieuc),
            99 => Some(Choseong::RieulKiyeok),
            100 => Some(Choseong::RieulSsangKiyeok),
            101 => Some(Choseong::RieulTikeut),
            102 => Some(Choseong::RieulSsangTikeut),
            103 => Some(Choseong::RieulMieum),
            104 => Some(Choseong::RieulPieup),
            105 => Some(Choseong::RieulSsangPieup),
            106 => Some(Choseong::RieulKapyeounPieup),
            107 => Some(Choseong::RieulSios),
            108 => Some(Choseong::RieulCieuc),
            109 => Some(Choseong::RieulKhieukh),
            110 => Some(Choseong::MieumKiyeok),
            111 => Some(Choseong::MieumTikeut),
            112 => Some(Choseong::MieumSios),
            113 => Some(Choseong::PieupSiosThieuth),
            114 => Some(Choseong::PieupKhieukh),
            115 => Some(Choseong::PieupHieuh),
            116 => Some(Choseong::SsangSiosPieup),
            117 => Some(Choseong::IeungRieul),
            118 => Some(Choseong::IeungHieuh),
            119 => Some(Choseong::SsangCieucHieuh),
            120 => Some(Choseong::SsangThieuth),
            121 => Some(Choseong::PhieuphHieuh),
            122 => Some(Choseong::HieuhSios),
            123 => Some(Choseong::SsangYeorinhieuh),
            _ => None,
        }
    }

    /// The code point of the conjoining jamo.
    pub open spec fn code(self) -> u32 {
        if self.index() < 95 {
            (0x1100 + self.index()) as u32
        } else {
            (0xA960 + self.index() - 95) as u32
        }
    }

    /// The jamo whose code point is `n`.
    pub open spec fn from_code(n: u32) -> Option<Choseong> {
        if 0x1100 <= n <= 0x115E {
            Choseong::at_index((n - 0x1100) as u32)
        } else if 0xA960 <= n <= 0xA97C {
            Choseong::at_index((n - 0xA960 + 95) as u32)
        } else {
            None
        }
    }

    /// The position of the jamo in the enumeration.
    pub fn ordinal(self) -> (r: u32)
        ensures
            r == self.index(),
    {
        match self {
            Choseong::Kiyeok => 0,
            Choseong::SsangKiyeok => 1,
            Choseong::Nieun => 2,
            Choseong::Tikeut => 3,
            Choseong::SsangTikeut => 4,
            Choseong::Rieul => 5,
            Choseong::Mieum => 6,
            Choseong::Pieup => 7,
            Choseong::SsangPieup => 8,
            Choseong::Sios => 9,
            Choseong::SsangSios => 10,
            Choseong::Ieung => 11,
            Choseong::Cieuc => 12,
            Choseong::SsangCieuc => 13,
            Choseong::Chieuch => 14,
            Choseong::Khieukh => 15,
            Choseong::Thieuth => 16,
            Choseong::Phieuph => 17,
            Choseong::Hieuh => 18,
            Choseong::NieunKiyeok => 19,
            Choseong::SsangNieun => 20,
            Choseong::NieunTikeut => 21,
            Choseong::NieunPieup => 22,
            Choseong::TikeutKiyeok => 23,
            Choseong::RieulNieun => 24,
            Choseong::SsangRieul => 25,
            Choseong::RieulHieuh => 26,
            Choseong::KapyeounRieul => 27,
            Choseong::MieumPieup => 28,
            Choseong::KapyeounMieum => 29,
            Choseong::PieupKiyeok => 30,
            Choseong::PieupNieun => 31,
            Choseong::PieupTikeut => 32,
            Choseong::PieupSios => 33,
            Choseong::PieupSiosKiyeok => 34,
            Choseong::PieupSiosTikeut => 35,
            Choseong::PieupSiosPieup => 36,
            Choseong::PieupSsangSios => 37,
            Choseong::PieupSiosCieuc => 38,
            Choseong::PieupCieuc => 39,
            Choseong::PieupChieuch => 40,
            Choseong::PieupThieuth => 41,
            Choseong::PieupPhieuph => 42,
            Choseong::KapyeounPieup => 43,
            Choseong::KapyeounSsangPieup => 44,
            Choseong::SiosKiyeok => 45,
            Choseong::SiosNieun => 46,
            Choseong::SiosTikeut => 47,
            Choseong::SiosRieul => 48,
            Choseong::SiosMieum => 49,
            Choseong::SiosPieup => 50,
            Choseong::SiosPieupKiyeok => 51,
            Choseong::SiosSsangSios => 52,
            Choseong::SiosIeung => 53,
            Choseong::SiosCieuc => 54,
            Choseong::SiosChieuch => 55,
            Choseong::SiosKhieukh => 56,
            Choseong::SiosThieuth => 57,
            Choseong::SiosPhieuph => 58,
            Choseong::SiosHieuh => 59,
            Choseong::ChitueumSios => 60,
            Choseong::ChitueumSsangSios => 61,
            Choseong::CeongchieumSios => 62,
            Choseong::CeongchieumSsangSios => 63,
            Choseong::Pansios => 64,
            Choseong::IeungKiyeok => 65,
            Choseong::IeungTikeut => 66,
            Choseong::IeungMieum => 67,
            Choseong::IeungPieup => 68,
            Choseong::IeungSios => 69,
            Choseong::IeungPansios => 70,
            Choseong::SsangIeung => 71,
            Choseong::IeungCieuc => 72,
            Choseong::IeungChieuch => 73,
            Choseong::IeungThieuth => 74,
            Choseong::IeungPhieuph => 75,
            Choseong::Yesieung => 76,
            Choseong::CieucIeung => 77,
            Choseong::ChitueumCieuc => 78,
            Choseong::ChitueumSsangCieuc => 79,
            Choseong::CeongchieumCieuc => 80,
            Choseong::CeongchieumSsangCieuc => 81,
            Choseong::ChieuchKhieukh => 82,
            Choseong::ChieuchHieuh => 83,
            Choseong::ChitueumChieuch => 84,
            Choseong::CeongchieumChieuch => 85,
            Choseong::PhieuphPieup => 86,
            Choseong::KapyeounPhieuph => 87,
            Choseong::SsangHieuh => 88,
            Choseong::Yeorinhieuh => 89,
            Choseong::KiyeokTikeut => 90,
            Choseong::NieunSios => 91,
            Choseong::NieunCieuc => 92,
            Choseong::NieunHieuh => 93,
            Choseong::TikeutRieul => 94,
            Choseong::TikeutMieum => 95,
            Choseong::TikeutPieup => 96,
            Choseong::TikeutSios => 97,
            Choseong::TikeutCieuc => 98,
            Choseong::RieulKiyeok => 99,
            Choseong::RieulSsangKiyeok => 100,
            Choseong::RieulTikeut => 101,
            Choseong::RieulSsangTikeut => 102,
            Choseong::RieulMieum => 103,
            Choseong::RieulPieup => 104,
            Choseong::RieulSsangPieup => 105,
            Choseong::RieulKapyeounPieup => 106,
            Choseong::RieulSios => 107,
            Choseong::RieulCieuc => 108,
            Choseong::RieulKhieukh => 109,
            Choseong::MieumKiyeok => 110,
            Choseong::MieumTikeut => 111,
            Choseong::MieumSios => 112,
            Choseong::PieupSiosThieuth => 113,
            Choseong::PieupKhieukh => 114,
            Choseong::PieupHieuh => 115,
            Choseong::SsangSiosPieup => 116,
            Choseong::IeungRieul => 117,
            Choseong::IeungHieuh => 118,
            Choseong::SsangCieucHieuh => 119,
            Choseong::SsangThieuth => 120,
            Choseong::PhieuphHieuh => 121,
            Choseong::HieuhSios => 122,
            Choseong::SsangYeorinhieuh => 123,
        }
    }

    /// The jamo at position `i` of the enumeration, if there is one.
    pub fn from_ordinal(i: u32) -> (r: Option<Choseong>)
        ensures
            r == Choseong::at_index(i),
    {
        match i {
            0 => Some(Choseong::Kiyeok),
            1 => Some(Choseong::SsangKiyeok),
            2 => Some(Choseong::Nieun),
            3 => Some(Choseong::Tikeut),
            4 => Some(Choseong::SsangTikeut),
            5 => Some(Choseong::Rieul),
            6 => Some(Choseong::Mieum),
            7 => Some(Choseong::Pieup),
            8 => Some(Choseong::SsangPieup),
            9 => Some(Choseong::Sios),
            10 => Some(Choseong::SsangSios),
            11 => Some(Choseong::Ieung),
            12 => Some(Choseong::Cieuc),
            13 => Some(Choseong::SsangCieuc),
            14 => Some(Choseong::Chieuch),
            15 => Some(Choseong::Khieukh),
            16 => Some(Choseong::Thieuth),
            17 => Some(Choseong::Phieuph),
            18 => Some(Choseong::Hieuh),
            19 => Some(Choseong::NieunKiyeok),
            20 => Some(Choseong::SsangNieun),
            21 => Some(Choseong::NieunTikeut),
            22 => Some(Choseong::NieunPieup),
            23 => Some(Choseong::TikeutKiyeok),
            24 => Some(Choseong::RieulNieun),
            25 => Some(Choseong::SsangRieul),
            26 => Some(Choseong::RieulHieuh),
            27 => Some(Choseong::KapyeounRieul),
            28 => Some(Choseong::MieumPieup),
            29 => Some(Choseong::KapyeounMieum),
            30 => Some(Choseong::PieupKiyeok),
            31 => Some(Choseong::PieupNieun),
            32 => Some(Choseong::PieupTikeut),
            33 => Some(Choseong::PieupSios),
            34 => Some(Choseong::PieupSiosKiyeok),
            35 => Some(Choseong::PieupSiosTikeut),
            36 => Some(Choseong::PieupSiosPieup),
            37 => Some(Choseong::PieupSsangSios),
            38 => Some(Choseong::PieupSiosCieuc),
            39 => Some(Choseong::PieupCieuc),
            40 => Some(Choseong::PieupChieuch),
            41 => Some(Choseong::PieupThieuth),
            42 => Some(Choseong::PieupPhieuph),
            43 => Some(Choseong::KapyeounPieup),
            44 => Some(Choseong::KapyeounSsangPieup),
            45 => Some(Choseong::SiosKiyeok),
            46 => Some(Choseong::SiosNieun),
            47 => Some(Choseong::SiosTikeut),
            48 => Some(Choseong::SiosRieul),
            49 => Some(Choseong::SiosMieum),
            50 => Some(Choseong::SiosPieup),
            51 => Some(Choseong::SiosPieupKiyeok),
            52 => Some(Choseong::SiosSsangSios),
            53 => Some(Choseong::SiosIeung),
            54 => Some(Choseong::SiosCieuc),
            55 => Some(Choseong::SiosChieuch),
            56 => Some(Choseong::SiosKhieukh),
            57 => Some(Choseong::SiosThieuth),
            58 => Some(Choseong::SiosPhieuph),
            59 => Some(Choseong::SiosHieuh),
            60 => Some(Choseong::ChitueumSios),
            61 => Some(Choseong::ChitueumSsangSios),
            62 => Some(Choseong::CeongchieumSios),
            63 => Some(Choseong::CeongchieumSsangSios),
            64 => Some(Choseong::Pansios),
            65 => Some(Choseong::IeungKiyeok),
            66 => Some(Choseong::IeungTikeut),
            67 => Some(Choseong::IeungMieum),
            68 => Some(Choseong::IeungPieup),
            69 => Some(Choseong::IeungSios),
            70 => Some(Choseong::IeungPansios),
            71 => Some(Choseong::SsangIeung),
            72 => Some(Choseong::IeungCieuc),
            73 => Some(Choseong::IeungChieuch),
            74 => Some(Choseong::IeungThieuth),
            75 => Some(Choseong::IeungPhieuph),
            76 => Some(Choseong::Yesieung),
            77 => Some(Choseong::CieucIeung),
            78 => Some(Choseong::ChitueumCieuc),
            79 => Some(Choseong::ChitueumSsangCieuc),
            80 => Some(Choseong::CeongchieumCieuc),
            81 => Some(Choseong::CeongchieumSsangCieuc),
            82 => Some(Choseong::ChieuchKhieukh),
            83 => Some(Choseong::ChieuchHieuh),
            84 => Some(Choseong::ChitueumChieuch),
            85 => Some(Choseong::CeongchieumChieuch),
            86 => Some(Choseong::PhieuphPieup),
            87 => Some(Choseong::KapyeounPhieuph),
            88 => Some(Choseong::SsangHieuh),
            89 => Some(Choseong::Yeorinhieuh),
            90 => Some(Choseong::KiyeokTikeut),
            91 => Some(Choseong::NieunSios),
            92 => Some(Choseong::NieunCieuc),
            93 => Some(Choseong::NieunHieuh),
            94 => Some(Choseong::TikeutRieul),
            95 => Some(Choseong::TikeutMieum),
            96 => Some(Choseong::TikeutPieup),
            97 => Some(Choseong::TikeutSios),
            98 => Some(Choseong::TikeutCieuc),
            99 => Some(Choseong::RieulKiyeok),
            100 => Some(Choseong::RieulSsangKiyeok),
            101 => Some(Choseong::RieulTikeut),
            102 => Some(Choseong::RieulSsangTikeut),
            103 => Some(Choseong::RieulMieum),
            104 => Some(Choseong::RieulPieup),
            105 => Some(Choseong::RieulSsangPieup),
            106 => Some(Choseong::RieulKapyeounPieup),
            107 => Some(Choseong::RieulSios),
            108 => Some(Choseong::RieulCieuc),
            109 => Some(Choseong::RieulKhieukh),
            110 => Some(Choseong::MieumKiyeok),
            111 => Some(Choseong::MieumTikeut),
            112 => Some(Choseong::MieumSios),
            113 => Some(Choseong::PieupSiosThieuth),
            114 => Some(Choseong::PieupKhieukh),
            115 => Some(Choseong::PieupHieuh),
            116 => Some(Choseong::SsangSiosPieup),
            117 => Some(Choseong::IeungRieul),
            118 => Some(Choseong::IeungHieuh),
            119 => Some(Choseong::SsangCieucHieuh),
            120 => Some(Choseong::SsangThieuth),
            121 => Some(Choseong::PhieuphHieuh),
            122 => Some(Choseong::HieuhSios),
            123 => Some(Choseong::SsangYeorinhieuh),
            _ => None,
        }
    }
}

/// A medial vowel of a syllable. The 21 modern vowels come first, the archaic
/// ones follow.
#[derive(Clone, Copy, Debug, PartialEq, Eq, Structural)]
pub enum Jungseong {
    /// 아 (U+1161)
    A,
    /// 애 (U+1162)
    Ae,
    /// 야 (U+1163)
    Ya,
    /// 얘 (U+1164)
    Yae,
    /// 어 (U+1165)
    Eo,
    /// 에 (U+1166)
    E,
    /// 여 (U+1167)
    Yeo,
    /// 예 (U+1168)
    Ye,
    /// 오 (U+1169)
    O,
    /// 와 (U+116A)
    Wa,
    /// 왜 (U+116B)
    Wae,
    /// 외 (U+116C)
    Oe,
    /// 요 (U+116D)
    Yo,
    /// 우 (U+116E)
    U,
    /// 워 (U+116F)
    Weo,
    /// 웨 (U+1170)
    We,
    /// 위 (U+1171)
    Wi,
    /// 유 (U+1172)
    Yu,
    /// 으 (U+1173)
    Eu,
    /// 의 (U+1174)
    Yi,
    /// 이 (U+1175)
    I,
    /// 아오 (U+1176)
    AO,
    /// 아우 (U+1177)
    AU,
    /// 야오 (U+1178)
    YaO,
    /// 야요 (U+1179)
    YaYo,
    /// 어오 (U+117A)
    EoO,
    /// 어우 (U+117B)
    EoU,
    /// 어으 (U+117C)
    EoEu,
    /// 여오 (U+117D)
    YeoO,
    /// 여우 (U+117E)
    YeoU,
    /// 오어 (U+117F)
    OEo,
    /// 오에 (U+1180)
    OE,
    /// 오예 (U+1181)
    OYe,
    /// 오오 (U+1182)
    OO,
    /// 오우 (U+1183)
    OU,
    /// 요야 (U+1184)
    YoYa,
    /// 요얘 (U+1185)
    YoYae,
    /// 요여 (U+1186)
    YoYeo,
    /// 요오 (U+1187)
    YoO,
    /// 요이 (U+1188)
    YoI,
    /// 우아 (U+1189)
    UA,
    /// 우애 (U+118A)
    UAe,
    /// 우어으 (U+118B)
    UEoEu,
    /// 우예 (U+118C)
    UYe,
    /// 우우 (U+118D)
    UU,
    /// 유아 (U+118E)
    YuA,
    /// 유어 (U+118F)
    YuEo,
    /// 유에 (U+1190)
    YuE,
    /// 유여 (U+1191)
    YuYeo,
    /// 유예 (U+1192)
    YuYe,
    /// 유우 (U+1193)
    YuU,
    /// 유이 (U+1194)
    YuI,
    /// 으우 (U+1195)
    EuU,
    /// 으으 (U+1196)
    EuEu,
    /// 의우 (U+1197)
    YiU,
    /// 이아 (U+1198)
    IA,
    /// 이야 (U+1199)
    IYa,
    /// 이오 (U+119A)
    IO,
    /// 이우 (U+119B)
    IU,
    /// 이으 (U+119C)
    IEu,
    /// 이아래아 (U+119D)
    IAraea,
    /// 아래아 (U+119E)
    Araea,
    /// 아래아어 (U+119F)
    AraeaEo,
    /// 아래아우 (U+11A0)
    AraeaU,
    /// 아래아이 (U+11A1)
    AraeaI,
    /// 두아래아 (U+11A2)
    SsangAraea,
    /// 아으 (U+11A3)
    AEu,
    /// 야우 (U+11A4)
    YaU,
    /// 여야 (U+11A5)
    YeoYa,
    /// 오야 (U+11A6)
    OYa,
    /// 오얘 (U+11A7)
    OYae,
    /// 오여 (U+D7B0)
    OYeo,
    /// 오오이 (U+D7B1)
    OOI,
    /// 요아 (U+D7B2)
    YoA,
    /// 요애 (U+D7B3)
    YoAe,
    /// 요어 (U+D7B4)
    YoEo,
    /// 우여 (U+D7B5)
    UYeo,
    /// 우이이 (U+D7B6)
    UII,
    /// 유애 (U+D7B7)
    YuAe,
    /// 유오 (U+D7B8)
    YuO,
    /// 으아 (U+D7B9)
    EuA,
    /// 으어 (U+D7BA)
    EuEo,
    /// 으에 (U+D7BB)
    EuE,
    /// 으오 (U+D7BC)
    EuO,
    /// 이야오 (U+D7BD)
    IYaO,
    /// 이얘 (U+D7BE)
    IYae,
    /// 이여 (U+D7BF)
    IYeo,
    /// 이예 (U+D7C0)
    IYe,
    /// 이오이 (U+D7C1)
    IOI,
    /// 이요 (U+D7C2)
    IYo,
    /// 이유 (U+D7C3)
    IYu,
    /// 이이 (U+D7C4)
    II,
    /// 아래아아 (U+D7C5)
    AraeaA,
    /// 아래아에 (U+D7C6)
    AraeaE,
}

impl Jungseong {
    /// The filler that stands for a missing medial vowel.
    pub const FILLER: char = '\u{1160}';

    /// The position of the jamo in the enumeration, which follows the order of
    /// the Unicode code points.
    pub open spec fn index(self) -> nat {
        match self {
            Jungseong::A => 0,
            Jungseong::Ae => 1,
            Jungseong::Ya => 2,
            Jungseong::Yae => 3,
            Jungseong::Eo => 4,
            Jungseong::E => 5,
            Jungseong::Yeo => 6,
            Jungseong::Ye => 7,
            Jungseong::O => 8,
            Jungseong::Wa => 9,
            Jungseong::Wae => 10,
            Jungseong::Oe => 11,
            Jungseong::Yo => 12,
            Jungseong::U => 13,
            Jungseong::Weo => 14,
            Jungseong::We => 15,
            Jungseong::Wi => 16,
            Jungseong::Yu => 17,
            Jungseong::Eu => 18,
            Jungseong::Yi => 19,
            Jungseong::I => 20,
            Jungseong::AO => 21,
            Jungseong::AU => 22,
            Jungseong::YaO => 23,
            Jungseong::YaYo => 24,
            Jungseong::EoO => 25,
            Jungseong::EoU => 26,
            Jungseong::EoEu => 27,
            Jungseong::YeoO => 28,
            Jungseong::YeoU => 29,
            Jungseong::OEo => 30,
            Jungseong::OE => 31,
            Jungseong::OYe => 32,
            Jungseong::OO => 33,
            Jungseong::OU => 34,
            Jungseong::YoYa => 35,
            Jungseong::YoYae => 36,
            Jungseong::YoYeo => 37,
            Jungseong::YoO => 38,
            Jungseong::YoI => 39,
            Jungseong::UA => 40,
            Jungseong::UAe => 41,
            Jungseong::UEoEu => 42,
            Jungseong::UYe => 43,
            Jungseong::UU => 44,
            Jungseong::YuA => 45,
            Jungseong::YuEo => 46,
            Jungseong::YuE => 47,
            Jungseong::YuYeo => 48,
            Jungseong::YuYe => 49,
            Jungseong::YuU => 50,
            Jungseong::YuI => 51,
            Jungseong::EuU => 52,
            Jungseong::EuEu => 53,
            Jungseong::YiU => 54,
            Jungseong::IA => 55,
            Jungseong::IYa => 56,
            Jungseong::IO => 57,
            Jungseong::IU => 58,
            Jungseong::IEu => 59,
            Jungseong::IAraea => 60,
            Jungseong::Araea => 61,
            Jungseong::AraeaEo => 62,
            Jungseong::AraeaU => 63,
            Jungseong::AraeaI => 64,
            Jungseong::SsangAraea => 65,
            Jungseong::AEu => 66,
            Jungseong::YaU => 67,
            Jungseong::YeoYa => 68,
            Jungseong::OYa => 69,
            Jungseong::OYae => 70,
            Jungseong::OYeo => 71,
            Jungseong::OOI => 72,
            Jungseong::YoA => 73,
            Jungseong::YoAe => 74,
            Jungseong::YoEo => 75,
            Jungseong::UYeo => 76,
            Jungseong::UII => 77,
            Jungseong::YuAe => 78,
            Jungseong::YuO => 79,
            Jungseong::EuA => 80,
            Jungseong::EuEo => 81,
            Jungseong::EuE => 82,
            Jungseong::EuO => 83,
            Jungseong::IYaO => 84,
            Jungseong::IYae => 85,
            Jungseong::IYeo => 86,
            Jungseong::IYe => 87,
            Jungseong::IOI => 88,
            Jungseong::IYo => 89,
            Jungseong::IYu => 90,
            Jungseong::II => 91,
            Jungseong::AraeaA => 92,
            Jungseong::AraeaE => 93,
        }
    }

    /// The jamo at position `i` of the enumeration.
    pub open spec fn at_index(i: u32) -> Option<Jungseong> {
        match i {
            0 => Some(Jungseong::A),
            1 => Some(Jungseong::Ae),
            2 => Some(Jungseong::Ya),
            3 => Some(Jungseong::Yae),
            4 => Some(Jungseong::Eo),
            5 => Some(Jungseong::E),
            6 => Some(Jungseong::Yeo),
            7 => Some(Jungseong::Ye),
            8 => Some(Jungseong::O),
            9 => Some(Jungseong::Wa),
            10 => Some(Jungseong::Wae),
            11 => Some(Jungseong::Oe),
            12 => Some(Jungseong::Yo),
            13 => Some(Jungseong::U),
            14 => Some(Jungseong::Weo),
            15 => Some(Jungseong::We),
            16 => Some(Jungseong::Wi),
            17 => Some(Jungseong::Yu),
            18 => Some(Jungseong::Eu),
            19 => Some(Jungseong::Yi),
            20 => Some(Jungseong::I),
            21 => Some(Jungseong::AO),
            22 => Some(Jungseong::AU),
            23 => Some(Jungseong::YaO),
            24 => Some(Jungseong::YaYo),
            25 => Some(Jungseong::EoO),
            26 => Some(Jungseong::EoU),
            27 => Some(Jungseong::EoEu),
            28 => Some(Jungseong::YeoO),
            29 => Some(Jungseong::YeoU),
            30 => Some(Jungseong::OEo),
            31 => Some(Jungseong::OE),
            32 => Some(Jungseong::OYe),
            33 => Some(Jungseong::OO),
            34 => Some(Jungseong::OU),
            35 => Some(Jungseong::YoYa),
            36 => Some(Jungseong::YoYae),
            37 => Some(Jungseong::YoYeo),
            38 => Some(Jungseong::YoO),
            39 => Some(Jungseong::YoI),
            40 => Some(Jungseong::UA),
            41 => Some(Jungseong::UAe),
            42 => Some(Jungseong::UEoEu),
            43 => Some(Jungseong::UYe),
            44 => Some(Jungseong::UU),
            45 => Some(Jungseong::YuA),
            46 => Some(Jungseong::YuEo),
            47 => Some(Jungseong::YuE),
            48 => Some(Jungseong::YuYeo),
            49 => Some(Jungseong::YuYe),
            50 => Some(Jungseong::YuU),
            51 => Some(Jungseong::YuI),
            52 => Some(Jungseong::EuU),
            53 => Some(Jungseong::EuEu),
            54 => Some(Jungseong::YiU),
            55 => Some(Jungseong::IA),
            56 => Some(Jungseong::IYa),
            57 => Some(Jungseong::IO),
            58 => Some(Jungseong::IU),
            59 => Some(Jungseong::IEu),
            60 => Some(Jungseong::IAraea),
            61 => Some(Jungseong::Araea),
            62 => Some(Jungseong::AraeaEo),
            63 => Some(Jungseong::AraeaU),
            64 => Some(Jungseong::AraeaI),
            65 => Some(Jungseong::SsangAraea),
            66 => Some(Jungseong::AEu),
            67 => Some(Jungseong::YaU),
            68 => Some(Jungseong::YeoYa),
            69 => Some(Jungseong::OYa),
            70 => Some(Jungseong::OYae),
            71 => Some(Jungseong::OYeo),
            72 => Some(Jungseong::OOI),
            73 => Some(Jungseong::YoA),
            74 => Some(Jungseong::YoAe),
            75 => Some(Jungseong::YoEo),
            76 => Some(Jungseong::UYeo),
            77 => Some(Jungseong::UII),
            78 => Some(Jungseong::YuAe),
            79 => Some(Jungseong::YuO),
            80 => Some(Jungseong::EuA),
            81 => Some(Jungseong::EuEo),
            82 => Some(Jungseong::EuE),
            83 => Some(Jungseong::EuO),
            84 => Some(Jungseong::IYaO),
            85 => Some(Jungseong::IYae),
            86 => Some(Jungseong::IYeo),
            87 => Some(Jungseong::IYe),
            88 => Some(Jungseong::IOI),
            89 => Some(Jungseong::IYo),
            90 => Some(Jungseong::IYu),
            91 => Some(Jungseong::II),
            92 => Some(Jungseong::AraeaA),
            93 => Some(Jungseong::AraeaE),
            _ => None,
        }
    }

    /// The code point of the conjoining jamo.
    pub open spec fn code(self) -> u32 {
        if self.index() < 71 {
            (0x1161 + self.index()) as u32
        } else {
            (0xD7B0 + self.index() - 71) as u32
        }
    }

    /// The jamo whose code point is `n`.
    pub open spec fn from_code(n: u32) -> Option<Jungseong> {
        if 0x1161 <= n <= 0x11A7 {
            Jungseong::at_index((n - 0x1161) as u32)
        } else if 0xD7B0 <= n <= 0xD7C6 {
            Jungseong::at_index((n - 0xD7B0 + 71) as u32)
        } else {
            None
        }
    }

    /// The position of the jamo in the enumeration.
    pub fn ordinal(self) -> (r: u32)
        ensures
            r == self.index(),
    {
        match self {
            Jungseong::A => 0,
            Jungseong::Ae => 1,
            Jungseong::Ya => 2,
            Jungseong::Yae => 3,
            Jungseong::Eo => 4,
            Jungseong::E => 5,
            Jungseong::Yeo => 6,
            Jungseong::Ye => 7,
            Jungseong::O => 8,
            Jungseong::Wa => 9,
            Jungseong::Wae => 10,
            Jungseong::Oe => 11,
            Jungseong::Yo => 12,
            Jungseong::U => 13,
            Jungseong::Weo => 14,
            Jungseong::We => 15,
            Jungseong::Wi => 16,
            Jungseong::Yu => 17,
            Jungseong::Eu => 18,
            Jungseong::Yi => 19,
            Jungseong::I => 20,
            Jungseong::AO => 21,
            Jungseong::AU => 22,
            Jungseong::YaO => 23,
            Jungseong::YaYo => 24,
            Jungseong::EoO => 25,
            Jungseong::EoU => 26,
            Jungseong::EoEu => 27,
            Jungseong::YeoO => 28,
            Jungseong::YeoU => 29,
            Jungseong::OEo => 30,
            Jungseong::OE => 31,
            Jungseong::OYe => 32,
            Jungseong::OO => 33,
            Jungseong::OU => 34,
            Jungseong::YoYa => 35,
            Jungseong::YoYae => 36,
            Jungseong::YoYeo => 37,
            Jungseong::YoO => 38,
            Jungseong::YoI => 39,
            Jungseong::UA => 40,
            Jungseong::UAe => 41,
            Jungseong::UEoEu => 42,
            Jungseong::UYe => 43,
            Jungseong::UU => 44,
            Jungseong::YuA => 45,
            Jungseong::YuEo => 46,
            Jungseong::YuE => 47,
            Jungseong::YuYeo => 48,
            Jungseong::YuYe => 49,
            Jungseong::YuU => 50,
            Jungseong::YuI => 51,
            Jungseong::EuU => 52,
            Jungseong::EuEu => 53,
            Jungseong::YiU => 54,
            Jungseong::IA => 55,
            Jungseong::IYa => 56,
            Jungseong::IO => 57,
            Jungseong::IU => 58,
            Jungseong::IEu => 59,
            Jungseong::IAraea => 60,
            Jungseong::Araea => 61,
            Jungseong::AraeaEo => 62,
            Jungseong::AraeaU => 63,
            Jungseong::AraeaI => 64,
            Jungseong::SsangAraea => 65,
            Jungseong::AEu => 66,
            Jungseong::YaU => 67,
            Jungseong::YeoYa => 68,
            Jungseong::OYa => 69,
            Jungseong::OYae => 70,
            Jungseong::OYeo => 71,
            Jungseong::OOI => 72,
            Jungseong::YoA => 73,
            Jungseong::YoAe => 74,
            Jungseong::YoEo => 75,
            Jungseong::UYeo => 76,
            Jungseong::UII => 77,
            Jungseong::YuAe => 78,
            Jungseong::YuO => 79,
            Jungseong::EuA => 80,
            Jungseong::EuEo => 81,
            Jungseong::EuE => 82,
            Jungseong::EuO => 83,
            Jungseong::IYaO => 84,
            Jungseong::IYae => 85,
            Jungseong::IYeo => 86,
            Jungseong::IYe => 87,
            Jungseong::IOI => 88,
            Jungseong::IYo => 89,
            Jungseong::IYu => 90,
            Jungseong::II => 91,
            Jungseong::AraeaA => 92,
            Jungseong::AraeaE => 93,
        }
    }

    /// The jamo at position `i` of the enumeration, if there is one.
    pub fn from_ordinal(i: u32) -> (r: Option<Jungseong>)
        ensures
            r == Jungseong::at_index(i),
    {
        match i {
            0 => Some(Jungseong::A),
            1 => Some(Jungseong::Ae),
            2 => Some(Jungseong::Ya),
            3 => Some(Jungseong::Yae),
            4 => Some(Jungseong::Eo),
            5 => Some(Jungseong::E),
            6 => Some(Jungseong::Yeo),
            7 => Some(Jungseong::Ye),
            8 => Some(Jungseong::O),
            9 => Some(Jungseong::Wa),
            10 => Some(Jungseong::Wae),
            11 => Some(Jungseong::Oe),
            12 => Some(Jungseong::Yo),
            13 => Some(Jungseong::U),
            14 => Some(Jungseong::Weo),
            15 => Some(Jungseong::We),
            16 => Some(Jungseong::Wi),
            17 => Some(Jungseong::Yu),
            18 => Some(Jungseong::Eu),
            19 => Some(Jungseong::Yi),
            20 => Some(Jungseong::I),
            21 => Some(Jungseong::AO),
            22 => Some(Jungseong::AU),
            23 => Some(Jungseong::YaO),
            24 => Some(Jungseong::YaYo),
            25 => Some(Jungseong::EoO),
            26 => Some(Jungseong::EoU),
            27 => Some(Jungseong::EoEu),
            28 => Some(Jungseong::YeoO),
            29 => Some(Jungseong::YeoU),
            30 => Some(Jungseong::OEo),
            31 => Some(Jungseong::OE),
            32 => Some(Jungseong::OYe),
            33 => Some(Jungseong::OO),
            34 => Some(Jungseong::OU),
            35 => Some(Jungseong::YoYa),
            36 => Some(Jungseong::YoYae),
            37 => Some(Jungseong::YoYeo),
            38 => Some(Jungseong::YoO),
            39 => Some(Jungseong::YoI),
            40 => Some(Jungseong::UA),
            41 => Some(Jungseong::UAe),
            42 => Some(Jungseong::UEoEu),
            43 => Some(Jungseong::UYe),
            44 => Some(Jungseong::UU),
            45 => Some(Jungseong::YuA),
            46 => Some(Jungseong::YuEo),
            47 => Some(Jungseong::YuE),
            48 => Some(Jungseong::YuYeo),
            49 => Some(Jungseong::YuYe),
            50 => Some(Jungseong::YuU),
            51 => Some(Jungseong::YuI),
            52 => Some(Jungseong::EuU),
            53 => Some(Jungseong::EuEu),
            54 => Some(Jungseong::YiU),
            55 => Some(Jungseong::IA),
            56 => Some(Jungseong::IYa),
            57 => Some(Jungseong::IO),
            58 => Some(Jungseong::IU),
            59 => Some(Jungseong::IEu),
            60 => Some(Jungseong::IAraea),
            61 => Some(Jungseong::Araea),
            62 => Some(Jungseong::AraeaEo),
            63 => Some(Jungseong::AraeaU),
            64 => Some(Jungseong::AraeaI),
            65 => Some(Jungseong::SsangAraea),
            66 => Some(Jungseong::AEu),
            67 => Some(Jungseong::YaU),
            68 => Some(Jungseong::YeoYa),
            69 => Some(Jungseong::OYa),
            70 => Some(Jungseong::OYae),
            71 => Some(Jungseong::OYeo),
            72 => Some(Jungseong::OOI),
            73 => Some(Jungseong::YoA),
            74 => Some(Jungseong::YoAe),
            75 => Some(Jungseong::YoEo),
            76 => Some(Jungseong::UYeo),
            77 => Some(Jungseong::UII),
            78 => Some(Jungseong::YuAe),
            79 => Some(Jungseong::YuO),
            80 => Some(Jungseong::EuA),
            81 => Some(Jungseong::EuEo),
            82 => Some(Jungseong::EuE),
            83 => Some(Jungseong::EuO),
            84 => Some(Jungseong::IYaO),
            85 => Some(Jungseong::IYae),
            86 => Some(Jungseong::IYeo),
            87 => Some(Jungseong::IYe),
            88 => Some(Jungseong::IOI),
            89 => Some(Jungseong::IYo),
            90 => Some(Jungseong::IYu),
            91 => Some(Jungseong::II),
            92 => Some(Jungseong::AraeaA),
            93 => Some(Jungseong::AraeaE),
            _ => None,
        }
    }
}

/// A final consonant of a syllable. The 27 modern finals come first, the
/// archaic ones follow.
#[derive(Clone, Copy, Debug, PartialEq, Eq, Structural)]
pub enum Jongseong {
    /// 기윽 (U+11A8)
    Kiyeok,
    /// 된기윽 (U+11A9)
    SsangKiyeok,
    /// 기윽시읏 (U+11AA)
    KiyeokSios,
    /// 니은 (U+11AB)
    Nieun,
    /// 니은지읒 (U+11AC)
    NieunCieuc,
    /// 니은히읗 (U+11AD)
    NieunHieuh,
    /// 디읃 (U+11AE)
    Tikeut,
    /// 리을 (U+11AF)
    Rieul,
    /// 리을기윽 (U+11B0)
    RieulKiyeok,
    /// 리을미음 (U+11B1)
    RieulMieum,
    /// 리을비읍 (U+11B2)
    RieulPieup,
    /// 리을시읏 (U+11B3)
    RieulSios,
    /// 리을티읕 (U+11B4)
    RieulThieuth,
    /// 리을피읖 (U+11B5)
    RieulPhieuph,
    /// 리을히읗 (U+11B6)
    RieulHieuh,
    /// 미음 (U+11B7)
    Mieum,
    /// 비읍 (U+11B8)
    Pieup,
    /// 비읍시읏 (U+11B9)
    PieupSios,
    /// 시읏 (U+11BA)
    Sios,
    /// 된시읏 (U+11BB)
    SsangSios,
    /// 이응 (U+11BC)
    Ieung,
    /// 지읒 (U+11BD)
    Cieuc,
    /// 치읓 (U+11BE)
    Chieuch,
    /// 키읔 (U+11BF)
    Khieukh,
    /// 티읕 (U+11C0)
    Thieuth,
    /// 피읖 (U+11C1)
    Phieuph,
    /// 히읗 (U+11C2)
    Hieuh,
    /// 기윽리을 (U+11C3)
    KiyeokRieul,
    /// 기윽시읏기윽 (U+11C4)
    KiyeokSiosKiyeok,
    /// 니은기윽 (U+11C5)
    NieunKiyeok,
    /// 니은디읃 (U+11C6)
    NieunTikeut,
    /// 니은시읏 (U+11C7)
    NieunSios,
    /// 니은반이소리 (U+11C8)
    NieunPansios,
    /// 니은티읕 (U+11C9)
    NieunThieuth,
    /// 디읃기윽 (U+11CA)
    TikeutKiyeok,
    /// 디읃리을 (U+11CB)
    TikeutRieul,
    /// 리을기윽시읏 (U+11CC)
    RieulKiyeokSios,
    /// 리을니은 (U+11CD)
    RieulNieun,
    /// 리을디읃 (U+11CE)
    RieulTikeut,
    /// 리을디읃히읗 (U+11CF)
    RieulTikeutHieuh,
    /// 두리을 (U+11D0)
    SsangRieul,
    /// 리을미음기윽 (U+11D1)
    RieulMieumKiyeok,
    /// 리을미음시읏 (U+11D2)
    RieulMieumSios,
    /// 리을비읍시읏 (U+11D3)
    RieulPieupSios,
    /// 리을비읍히읗 (U+11D4)
    RieulPieupHieuh,
    /// 리을가벼운비읍 (U+11D5)
    RieulKapyeounPieup,
    /// 리을두시읏 (U+11D6)
    RieulSsangSios,
    /// 리을반이소리 (U+11D7)
    RieulPansios,
    /// 리을키읔 (U+11D8)
    RieulKhieukh,
    /// 리을목구멍터집소리 (U+11D9)
    RieulYeorinhieuh,
    /// 미음기윽 (U+11DA)
    MieumKiyeok,
    /// 미음리을 (U+11DB)
    MieumRieul,
    /// 미음비읍 (U+11DC)
    MieumPieup,
    /// 미음시읏 (U+11DD)
    MieumSios,
    /// 미음두시읏 (U+11DE)
    MieumSsangSios,
    /// 미음반이소리 (U+11DF)
    MieumPansios,
    /// 미음치읓 (U+11E0)
    MieumChieuch,
    /// 미음히읗 (U+11E1)
    MieumHieuh,
    /// 가벼운미음 (U+11E2)
    KapyeounMieum,
    /// 비읍리을 (U+11E3)
    PieupRieul,
    /// 비읍피읖 (U+11E4)
    PieupPhieuph,
    /// 비읍히읗 (U+11E5)
    PieupHieuh,
    /// 가벼운비읍 (U+11E6)
    KapyeounPieup,
    /// 시읏기윽 (U+11E7)
    SiosKiyeok,
    /// 시읏디읃 (U+11E8)
    SiosTikeut,
    /// 시읏리을 (U+11E9)
    SiosRieul,
    /// 시읏비읍 (U+11EA)
    SiosPieup,
    /// 반이소리 (U+11EB)
    Pansios,
    /// 이응기윽 (U+11EC)
    IeungKiyeok,
    /// 이응두기윽 (U+11ED)
    IeungSsangKiyeok,
    /// 두이응 (U+11EE)
    SsangIeung,
    /// 이응키읔 (U+11EF)
    IeungKhieukh,
    /// 어금이소리 (U+11F0)
    Yesieung,
    /// 어금이소리시읏 (U+11F1)
    YesieungSios,
    /// 어금이소리반이소리 (U+11F2)
    YesieungPansios,
    /// 피읖비읍 (U+11F3)
    PhieuphPieup,
    /// 가벼운피읖 (U+11F4)
    KapyeounPhieuph,
    /// 히읗니은 (U+11F5)
    HieuhNieun,
    /// 히읗리을 (U+11F6)
    HieuhRieul,
    /// 히읗미음 (U+11F7)
    HieuhMieum,
    /// 히읗비읍 (U+11F8)
    HieuhPieup,
    /// 목구멍터집소리 (U+11F9)
    Yeorinhieuh,
    /// 기윽니은 (U+11FA)
    KiyeokNieun,
    /// 기윽비읍 (U+11FB)
    KiyeokPieup,
    /// 기윽치읓 (U+11FC)
    KiyeokChieuch,
    /// 기윽키읔 (U+11FD)
    KiyeokKhieukh,
    /// 기윽히읗 (U+11FE)
    KiyeokHieuh,
    /// 두니은 (U+11FF)
    SsangNieun,
    /// 니은리을 (U+D7CB)
    NieunRieul,
    /// 니은치읓 (U+D7CC)
    NieunChieuch,
    /// 두디읃 (U+D7CD)
    SsangTikeut,
    /// 두디읃비읍 (U+D7CE)
    SsangTikeutPieup,
    /// 디읃비읍 (U+D7CF)
    TikeutPieup,
    /// 디읃시읏 (U+D7D0)
    TikeutSios,
    /// 디읃시읏기윽 (U+D7D1)
    TikeutSiosKiyeok,
    /// 디읃지읒 (U+D7D2)
    TikeutCieuc,
    /// 디읃치읓 (U+D7D3)
    TikeutChieuch,
    /// 디읃티읕 (U+D7D4)
    TikeutThieuth,
    /// 리을두기윽 (U+D7D5)
    RieulSsangKiyeok,
    /// 리을기윽히읗 (U+D7D6)
    RieulKiyeokHieuh,
    /// 두리을키읔 (U+D7D7)
    SsangRieulKhieukh,
    /// 리을미음히읗 (U+D7D8)
    RieulMieumHieuh,
    /// 리을비읍디읃 (U+D7D9)
    RieulPieupTikeut,
    /// 리을비읍피읖 (U+D7DA)
    RieulPieupPhieuph,
    /// 리을어금이소리 (U+D7DB)
    RieulYesieung,
    /// 리을목구멍터집소리히읗 (U+D7DC)
    RieulYeorinhieuhHieuh,
    /// 가벼운리을 (U+D7DD)
    KapyeounRieul,
    /// 미음니은 (U+D7DE)
    MieumNieun,
    /// 미음두니은 (U+D7DF)
    MieumSsangNieun,
    /// 두미음 (U+D7E0)
    SsangMieum,
    /// 미음비읍시읏 (U+D7E1)
    MieumPieupSios,
    /// 미음지읒 (U+D7E2)
    MieumCieuc,
    /// 비읍디읃 (U+D7E3)
    PieupTikeut,
    /// 비읍리을피읖 (U+D7E4)
    PieupRieulPhieuph,
    /// 비읍미음 (U+D7E5)
    PieupMieum,
    /// 두비읍 (U+D7E6)
    SsangPieup,
    /// 비읍시읏디읃 (U+D7E7)
    PieupSiosTikeut,
    /// 비읍지읒 (U+D7E8)
    PieupCieuc,
    /// 비읍치읓 (U+D7E9)
    PieupChieuch,
    /// 시읏미음 (U+D7EA)
    SiosMieum,
    /// 시읏가벼운비읍 (U+D7EB)
    SiosKapyeounPieup,
    /// 두시읏기윽 (U+D7EC)
    SsangSiosKiyeok,
    /// 두시읏디읃 (U+D7ED)
    SsangSiosTikeut,
    /// 시읏반이소리 (U+D7EE)
    SiosPansios,
    /// 시읏지읒 (U+D7EF)
    SiosCieuc,
    /// 시읏치읓 (U+D7F0)
    SiosChieuch,
    /// 시읏티읕 (U+D7F1)
    SiosThieuth,
    /// 시읏히읗 (U+D7F2)
    SiosHieuh,
    /// 반이소리비읍 (U+D7F3)
    PansiosPieup,
    /// 반이소리가벼운비읍 (U+D7F4)
    PansiosKapyeounPieup,
    /// 어금이소리미음 (U+D7F5)
    YesieungMieum,
    /// 어금이소리히읗 (U+D7F6)
    YesieungHieuh,
    /// 지읒비읍 (U+D7F7)
    CieucPieup,
    /// 지읒두비읍 (U+D7F8)
    CieucSsangPieup,
    /// 두지읒 (U+D7F9)
    SsangCieuc,
    /// 피읖시읏 (U+D7FA)
    PhieuphSios,
    /// 피읖티읕 (U+D7FB)
    PhieuphThieuth,
}

impl Jongseong {
    /// The position of the jamo in the enumeration, which follows the order of
    /// the Unicode code points.
    pub open spec fn index(self) -> nat {
        match self {
            Jongseong::Kiyeok => 0,
            Jongseong::SsangKiyeok => 1,
            Jongseong::KiyeokSios => 2,
            Jongseong::Nieun => 3,
            Jongseong::NieunCieuc => 4,
            Jongseong::NieunHieuh => 5,
            Jongseong::Tikeut => 6,
            Jongseong::Rieul => 7,
            Jongseong::RieulKiyeok => 8,
            Jongseong::RieulMieum => 9,
            Jongseong::RieulPieup => 10,
            Jongseong::RieulSios => 11,
            Jongseong::RieulThieuth => 12,
            Jongseong::RieulPhieuph => 13,
            Jongseong::RieulHieuh => 14,
            Jongseong::Mieum => 15,
            Jongseong::Pieup => 16,
            Jongseong::PieupSios => 17,
            Jongseong::Sios => 18,
            Jongseong::SsangSios => 19,
            Jongseong::Ieung => 20,
            Jongseong::Cieuc => 21,
            Jongseong::Chieuch => 22,
            Jongseong::Khieukh => 23,
            Jongseong::Thieuth => 24,
            Jongseong::Phieuph => 25,
            Jongseong::Hieuh => 26,
            Jongseong::KiyeokRieul => 27,
            Jongseong::KiyeokSiosKiyeok => 28,
            Jongseong::NieunKiyeok => 29,
            Jongseong::NieunTikeut => 30,
            Jongseong::NieunSios => 31,
            Jongseong::NieunPansios => 32,
            Jongseong::NieunThieuth => 33,
            Jongseong::TikeutKiyeok => 34,
            Jongseong::TikeutRieul => 35,
            Jongseong::RieulKiyeokSios => 36,
            Jongseong::RieulNieun => 37,
            Jongseong::RieulTikeut => 38,
            Jongseong::RieulTikeutHieuh => 39,
            Jongseong::SsangRieul => 40,
            Jongseong::RieulMieumKiyeok => 41,
            Jongseong::RieulMieumSios => 42,
            Jongseong::RieulPieupSios => 43,
            Jongseong::RieulPieupHieuh => 44,
            Jongseong::RieulKapyeounPieup => 45,
            Jongseong::RieulSsangSios => 46,
            Jongseong::RieulPansios => 47,
            Jongseong::RieulKhieukh => 48,
            Jongseong::RieulYeorinhieuh => 49,
            Jongseong::MieumKiyeok => 50,
            Jongseong::MieumRieul => 51,
            Jongseong::MieumPieup => 52,
            Jongseong::MieumSios => 53,
            Jongseong::MieumSsangSios => 54,
            Jongseong::MieumPansios => 55,
            Jongseong::MieumChieuch => 56,
            Jongseong::MieumHieuh => 57,
            Jongseong::KapyeounMieum => 58,
            Jongseong::PieupRieul => 59,
            Jongseong::PieupPhieuph => 60,
            Jongseong::PieupHieuh => 61,
            Jongseong::KapyeounPieup => 62,
            Jongseong::SiosKiyeok => 63,
            Jongseong::SiosTikeut => 64,
            Jongseong::SiosRieul => 65,
            Jongseong::SiosPieup => 66,
            Jongseong::Pansios => 67,
            Jongseong::IeungKiyeok => 68,
            Jongseong::IeungSsangKiyeok => 69,
            Jongseong::SsangIeung => 70,
            Jongseong::IeungKhieukh => 71,
            Jongseong::Yesieung => 72,
            Jongseong::YesieungSios => 73,
            Jongseong::YesieungPansios => 74,
            Jongseong::PhieuphPieup => 75,
            Jongseong::KapyeounPhieuph => 76,
            Jongseong::HieuhNieun => 77,
            Jongseong::HieuhRieul => 78,
            Jongseong::HieuhMieum => 79,
            Jongseong::HieuhPieup => 80,
            Jongseong::Yeorinhieuh => 81,
            Jongseong::KiyeokNieun => 82,
            Jongseong::KiyeokPieup => 83,
            Jongseong::KiyeokChieuch => 84,
            Jongseong::KiyeokKhieukh => 85,
            Jongseong::KiyeokHieuh => 86,
            Jongseong::SsangNieun => 87,
            Jongseong::NieunRieul => 88,
            Jongseong::NieunChieuch => 89,
            Jongseong::SsangTikeut => 90,
            Jongseong::SsangTikeutPieup => 91,
            Jongseong::TikeutPieup => 92,
            Jongseong::TikeutSios => 93,
            Jongseong::TikeutSiosKiyeok => 94,
            Jongseong::TikeutCieuc => 95,
            Jongseong::TikeutChieuch => 96,
            Jongseong::TikeutThieuth => 97,
            Jongseong::RieulSsangKiyeok => 98,
            Jongseong::RieulKiyeokHieuh => 99,
            Jongseong::SsangRieulKhieukh => 100,
            Jongseong::RieulMieumHieuh => 101,
            Jongseong::RieulPieupTikeut => 102,
            Jongseong::RieulPieupPhieuph => 103,
            Jongseong::RieulYesieung => 104,
            Jongseong::RieulYeorinhieuhHieuh => 105,
            Jongseong::KapyeounRieul => 106,
            Jongseong::MieumNieun => 107,
            Jongseong::MieumSsangNieun => 108,
            Jongseong::SsangMieum => 109,
            Jongseong::MieumPieupSios => 110,
            Jongseong::MieumCieuc => 111,
            Jongseong::PieupTikeut => 112,
            Jongseong::PieupRieulPhieuph => 113,
            Jongseong::PieupMieum => 114,
            Jongseong::SsangPieup => 115,
            Jongseong::PieupSiosTikeut => 116,
            Jongseong::PieupCieuc => 117,
            Jongseong::PieupChieuch => 118,
            Jongseong::SiosMieum => 119,
            Jongseong::SiosKapyeounPieup => 120,
            Jongseong::SsangSiosKiyeok => 121,
            Jongseong::SsangSiosTikeut => 122,
            Jongseong::SiosPansios => 123,
            Jongseong::SiosCieuc => 124,
            Jongseong::SiosChieuch => 125,
            Jongseong::SiosThieuth => 126,
            Jongseong::SiosHieuh => 127,
            Jongseong::PansiosPieup => 128,
            Jongseong::PansiosKapyeounPieup => 129,
            Jongseong::YesieungMieum => 130,
            Jongseong::YesieungHieuh => 131,
            Jongseong::CieucPieup => 132,
            Jongseong::CieucSsangPieup => 133,
            Jongseong::SsangCieuc => 134,
            Jongseong::PhieuphSios => 135,
            Jongseong::PhieuphThieuth => 136,
        }
    }

    /// The jamo at position `i` of the enumeration.
    pub open spec fn at_index(i: u32) -> Option<Jongseong> {
        match i {
            0 => Some(Jongseong::Kiyeok),
            1 => Some(Jongseong::SsangKiyeok),
            2 => Some(Jongseong::KiyeokSios),
            3 => Some(Jongseong::Nieun),
            4 => Some(Jongseong::NieunCieuc),
            5 => Some(Jongseong::NieunHieuh),
            6 => Some(Jongseong::Tikeut),
            7 => Some(Jongseong::Rieul),
            8 => Some(Jongseong::RieulKiyeok),
            9 => Some(Jongseong::RieulMieum),
            10 => Some(Jongseong::RieulPieup),
            11 => Some(Jongseong::RieulSios),
            12 => Some(Jongseong::RieulThieuth),
            13 => Some(Jongseong::RieulPhieuph),
            14 => Some(Jongseong::RieulHieuh),
            15 => Some(Jongseong::Mieum),
            16 => Some(Jongseong::Pieup),
            17 => Some(Jongseong::PieupSios),
            18 => Some(Jongseong::Sios),
            19 => Some(Jongseong::SsangSios),
            20 => Some(Jongseong::Ieung),
            21 => Some(Jongseong::Cieuc),
            22 => Some(Jongseong::Chieuch),
            23 => Some(Jongseong::Khieukh),
            24 => Some(Jongseong::Thieuth),
            25 => Some(Jongseong::Phieuph),
            26 => Some(Jongseong::Hieuh),
            27 => Some(Jongseong::KiyeokRieul),
            28 => Some(Jongseong::KiyeokSiosKiyeok),
            29 => Some(Jongseong::NieunKiyeok),
            30 => Some(Jongseong::NieunTikeut),
            31 => Some(Jongseong::NieunSios),
            32 => Some(Jongseong::NieunPansios),
            33 => Some(Jongseong::NieunThieuth),
            34 => Some(Jongseong::TikeutKiyeok),
            35 => Some(Jongseong::TikeutRieul),
            36 => Some(Jongseong::RieulKiyeokSios),
            37 => Some(Jongseong::RieulNieun),
            38 => Some(Jongseong::RieulTikeut),
            39 => Some(Jongseong::RieulTikeutHieuh),
            40 => Some(Jongseong::SsangRieul),
            41 => Some(Jongseong::RieulMieumKiyeok),
            42 => Some(Jongseong::RieulMieumSios),
            43 => Some(Jongseong::RieulPieupSios),
            44 => Some(Jongseong::RieulPieupHieuh),
            45 => Some(Jongseong::RieulKapyeounPieup),
            46 => Some(Jongseong::RieulSsangSios),
            47 => Some(Jongseong::RieulPansios),
            48 => Some(Jongseong::RieulKhieukh),
            49 => Some(Jongseong::RieulYeorinhieuh),
            50 => Some(Jongseong::MieumKiyeok),
            51 => Some(Jongseong::MieumRieul),
            52 => Some(Jongseong::MieumPieup),
            53 => Some(Jongseong::MieumSios),
            54 => Some(Jongseong::MieumSsangSios),
            55 => Some(Jongseong::MieumPansios),
            56 => Some(Jongseong::MieumChieuch),
            57 => Some(Jongseong::MieumHieuh),
            58 => Some(Jongseong::KapyeounMieum),
            59 => Some(Jongseong::PieupRieul),
            60 => Some(Jongseong::PieupPhieuph),
            61 => Some(Jongseong::PieupHieuh),
            62 => Some(Jongseong::KapyeounPieup),
            63 => Some(Jongseong::SiosKiyeok),
            64 => Some(Jongseong::SiosTikeut),
            65 => Some(Jongseong::SiosRieul),
            66 => Some(Jongseong::SiosPieup),
            67 => Some(Jongseong::Pansios),
            68 => Some(Jongseong::IeungKiyeok),
            69 => Some(Jongseong::IeungSsangKiyeok),
            70 => Some(Jongseong::SsangIeung),
            71 => Some(Jongseong::IeungKhieukh),
            72 => Some(Jongseong::Yesieung),
            73 => Some(Jongseong::YesieungSios),
            74 => Some(Jongseong::YesieungPansios),
            75 => Some(Jongseong::PhieuphPieup),
            76 => Some(Jongseong::KapyeounPhieuph),
            77 => Some(Jongseong::HieuhNieun),
            78 => Some(Jongseong::HieuhRieul),
            79 => Some(Jongseong::HieuhMieum),
            80 => Some(Jongseong::HieuhPieup),
            81 => Some(Jongseong::Yeorinhieuh),
            82 => Some(Jongseong::KiyeokNieun),
            83 => Some(Jongseong::KiyeokPieup),
            84 => Some(Jongseong::KiyeokChieuch),
            85 => Some(Jongseong::KiyeokKhieukh),
            86 => Some(Jongseong::KiyeokHieuh),
            87 => Some(Jongseong::SsangNieun),
            88 => Some(Jongseong::NieunRieul),
            89 => Some(Jongseong::NieunChieuch),
            90 => Some(Jongseong::SsangTikeut),
            91 => Some(Jongseong::SsangTikeutPieup),
            92 => Some(Jongseong::TikeutPieup),
            93 => Some(Jongseong::TikeutSios),
            94 => Some(Jongseong::TikeutSiosKiyeok),
            95 => Some(Jongseong::TikeutCieuc),
            96 => Some(Jongseong::TikeutChieuch),
            97 => Some(Jongseong::TikeutThieuth),
            98 => Some(Jongseong::RieulSsangKiyeok),
            99 => Some(Jongseong::RieulKiyeokHieuh),
            100 => Some(Jongseong::SsangRieulKhieukh),
            101 => Some(Jongseong::RieulMieumHieuh),
            102 => Some(Jongseong::RieulPieupTikeut),
            103 => Some(Jongseong::RieulPieupPhieuph),
            104 => Some(Jongseong::RieulYesieung),
            105 => Some(Jongseong::RieulYeorinhieuhHieuh),
            106 => Some(Jongseong::KapyeounRieul),
            107 => Some(Jongseong::MieumNieun),
            108 => Some(Jongseong::MieumSsangNieun),
            109 => Some(Jongseong::SsangMieum),
            110 => Some(Jongseong::MieumPieupSios),
            111 => Some(Jongseong::MieumCieuc),
            112 => Some(Jongseong::PieupTikeut),
            113 => Some(Jongseong::PieupRieulPhieuph),
            114 => Some(Jongseong::PieupMieum),
            115 => Some(Jongseong::SsangPieup),
            116 => Some(Jongseong::PieupSiosTikeut),
            117 => Some(Jongseong::PieupCieuc),
            118 => Some(Jongseong::PieupChieuch),
            119 => Some(Jongseong::SiosMieum),
            120 => Some(Jongseong::SiosKapyeounPieup),
            121 => Some(Jongseong::SsangSiosKiyeok),
            122 => Some(Jongseong::SsangSiosTikeut),
            123 => Some(Jongseong::SiosPansios),
            124 => Some(Jongseong::SiosCieuc),
            125 => Some(Jongseong::SiosChieuch),
            126 => Some(Jongseong::SiosThieuth),
            127 => Some(Jongseong::SiosHieuh),
            128 => Some(Jongseong::PansiosPieup),
            129 => Some(Jongseong::PansiosKapyeounPieup),
            130 => Some(Jongseong::YesieungMieum),
            131 => Some(Jongseong::YesieungHieuh),
            132 => Some(Jongseong::CieucPieup),
            133 => Some(Jongseong::CieucSsangPieup),
            134 => Some(Jongseong::SsangCieuc),
            135 => Some(Jongseong::PhieuphSios),
            136 => Some(Jongseong::PhieuphThieuth),
            _ => None,
        }
    }

    /// The code point of the conjoining jamo.
    pub open spec fn code(self) -> u32 {
        if self.index() < 88 {
            (0x11A8 + self.index()) as u32
        } else {
            (0xD7CB + self.index() - 88) as u32
        }
    }

    /// The jamo whose code point is `n`.
    pub open spec fn from_code(n: u32) -> Option<Jongseong> {
        if 0x11A8 <= n <= 0x11FF {
            Jongseong::at_index((n - 0x11A8) as u32)
        } else if 0xD7CB <= n <= 0xD7FB {
            Jongseong::at_index((n - 0xD7CB + 88) as u32)
        } else {
            None
        }
    }

    /// The position of the jamo in the enumeration.
    pub fn ordinal(self) -> (r: u32)
        ensures
            r == self.index(),
    {
        match self {
            Jongseong::Kiyeok => 0,
            Jongseong::SsangKiyeok => 1,
            Jongseong::KiyeokSios => 2,
            Jongseong::Nieun => 3,
            Jongseong::NieunCieuc => 4,
            Jongseong::NieunHieuh => 5,
            Jongseong::Tikeut => 6,
            Jongseong::Rieul => 7,
            Jongseong::RieulKiyeok => 8,
            Jongseong::RieulMieum => 9,
            Jongseong::RieulPieup => 10,
            Jongseong::RieulSios => 11,
            Jongseong::RieulThieuth => 12,
            Jongseong::RieulPhieuph => 13,
            Jongseong::RieulHieuh => 14,
            Jongseong::Mieum => 15,
            Jongseong::Pieup => 16,
            Jongseong::PieupSios => 17,
            Jongseong::Sios => 18,
            Jongseong::SsangSios => 19,
            Jongseong::Ieung => 20,
            Jongseong::Cieuc => 21,
            Jongseong::Chieuch => 22,
            Jongseong::Khieukh => 23,
            Jongseong::Thieuth => 24,
            Jongseong::Phieuph => 25,
            Jongseong::Hieuh => 26,
            Jongseong::KiyeokRieul => 27,
            Jongseong::KiyeokSiosKiyeok => 28,
            Jongseong::NieunKiyeok => 29,
            Jongseong::NieunTikeut => 30,
            Jongseong::NieunSios => 31,
            Jongseong::NieunPansios => 32,
            Jongseong::NieunThieuth => 33,
            Jongseong::TikeutKiyeok => 34,
            Jongseong::TikeutRieul => 35,
            Jongseong::RieulKiyeokSios => 36,
            Jongseong::RieulNieun => 37,
            Jongseong::RieulTikeut => 38,
            Jongseong::RieulTikeutHieuh => 39,
            Jongseong::SsangRieul => 40,
            Jongseong::RieulMieumKiyeok => 41,
            Jongseong::RieulMieumSios => 42,
            Jongseong::RieulPieupSios => 43,
            Jongseong::RieulPieupHieuh => 44,
            Jongseong::RieulKapyeounPieup => 45,
            Jongseong::RieulSsangSios => 46,
            Jongseong::RieulPansios => 47,
            Jongseong::RieulKhieukh => 48,
            Jongseong::RieulYeorinhieuh => 49,
            Jongseong::MieumKiyeok => 50,
            Jongseong::MieumRieul => 51,
            Jongseong::MieumPieup => 52,
            Jongseong::MieumSios => 53,
            Jongseong::MieumSsangSios => 54,
            Jongseong::MieumPansios => 55,
            Jongseong::MieumChieuch => 56,
            Jongseong::MieumHieuh => 57,
            Jongseong::KapyeounMieum => 58,
            Jongseong::PieupRieul => 59,
            Jongseong::PieupPhieuph => 60,
            Jongseong::PieupHieuh => 61,
            Jongseong::KapyeounPieup => 62,
            Jongseong::SiosKiyeok => 63,
            Jongseong::SiosTikeut => 64,
            Jongseong::SiosRieul => 65,
            Jongseong::SiosPieup => 66,
            Jongseong::Pansios => 67,
            Jongseong::IeungKiyeok => 68,
            Jongseong::IeungSsangKiyeok => 69,
            Jongseong::SsangIeung => 70,
            Jongseong::IeungKhieukh => 71,
            Jongseong::Yesieung => 72,
            Jongseong::YesieungSios => 73,
            Jongseong::YesieungPansios => 74,
            Jongseong::PhieuphPieup => 75,
            Jongseong::KapyeounPhieuph => 76,
            Jongseong::HieuhNieun => 77,
            Jongseong::HieuhRieul => 78,
            Jongseong::HieuhMieum => 79,
            Jongseong::HieuhPieup => 80,
            Jongseong::Yeorinhieuh => 81,
            Jongseong::KiyeokNieun => 82,
            Jongseong::KiyeokPieup => 83,
            Jongseong::KiyeokChieuch => 84,
            Jongseong::KiyeokKhieukh => 85,
            Jongseong::KiyeokHieuh => 86,
            Jongseong::SsangNieun => 87,
            Jongseong::NieunRieul => 88,
            Jongseong::NieunChieuch => 89,
            Jongseong::SsangTikeut => 90,
            Jongseong::SsangTikeutPieup => 91,
            Jongseong::TikeutPieup => 92,
            Jongseong::TikeutSios => 93,
            Jongseong::TikeutSiosKiyeok => 94,
            Jongseong::TikeutCieuc => 95,
            Jongseong::TikeutChieuch => 96,
            Jongseong::TikeutThieuth => 97,
            Jongseong::RieulSsangKiyeok => 98,
            Jongseong::RieulKiyeokHieuh => 99,
            Jongseong::SsangRieulKhieukh => 100,
            Jongseong::RieulMieumHieuh => 101,
            Jongseong::RieulPieupTikeut => 102,
            Jongseong::RieulPieupPhieuph => 103,
            Jongseong::RieulYesieung => 104,
            Jongseong::RieulYeorinhieuhHieuh => 105,
            Jongseong::KapyeounRieul => 106,
            Jongseong::MieumNieun => 107,
            Jongseong::MieumSsangNieun => 108,
            Jongseong::SsangMieum => 109,
            Jongseong::MieumPieupSios => 110,
            Jongseong::MieumCieuc => 111,
            Jongseong::PieupTikeut => 112,
            Jongseong::PieupRieulPhieuph => 113,
            Jongseong::PieupMieum => 114,
            Jongseong::SsangPieup => 115,
            Jongseong::PieupSiosTikeut => 116,
            Jongseong::PieupCieuc => 117,
            Jongseong::PieupChieuch => 118,
            Jongseong::SiosMieum => 119,
            Jongseong::SiosKapyeounPieup => 120,
            Jongseong::SsangSiosKiyeok => 121,
            Jongseong::SsangSiosTikeut => 122,
            Jongseong::SiosPansios => 123,
            Jongseong::SiosCieuc => 124,
            Jongseong::SiosChieuch => 125,
            Jongseong::SiosThieuth => 126,
            Jongseong::SiosHieuh => 127,
            Jongseong::PansiosPieup => 128,
            Jongseong::PansiosKapyeounPieup => 129,
            Jongseong::YesieungMieum => 130,
            Jongseong::YesieungHieuh => 131,
            Jongseong::CieucPieup => 132,
            Jongseong::CieucSsangPieup => 133,
            Jongseong::SsangCieuc => 134,
            Jongseong::PhieuphSios => 135,
            Jongseong::PhieuphThieuth => 136,
        }
    }

    /// The jamo at position `i` of the enumeration, if there is one.
    pub fn from_ordinal(i: u32) -> (r: Option<Jongseong>)
        ensures
            r == Jongseong::at_index(i),
    {
        match i {
            0 => Some(Jongseong::Kiyeok),
            1 => Some(Jongseong::SsangKiyeok),
            2 => Some(Jongseong::KiyeokSios),
            3 => Some(Jongseong::Nieun),
            4 => Some(Jongseong::NieunCieuc),
            5 => Some(Jongseong::NieunHieuh),
            6 => Some(Jongseong::Tikeut),
            7 => Some(Jongseong::Rieul),
            8 => Some(Jongseong::RieulKiyeok),
            9 => Some(Jongseong::RieulMieum),
            10 => Some(Jongseong::RieulPieup),
            11 => Some(Jongseong::RieulSios),
            12 => Some(Jongseong::RieulThieuth),
            13 => Some(Jongseong::RieulPhieuph),
            14 => Some(Jongseong::RieulHieuh),
            15 => Some(Jongseong::Mieum),
            16 => Some(Jongseong::Pieup),
            17 => Some(Jongseong::PieupSios),
            18 => Some(Jongseong::Sios),
            19 => Some(Jongseong::SsangSios),
            20 => Some(Jongseong::Ieung),
            21 => Some(Jongseong::Cieuc),
            22 => Some(Jongseong::Chieuch),
            23 => Some(Jongseong::Khieukh),
            24 => Some(Jongseong::Thieuth),
            25 => Some(Jongseong::Phieuph),
            26 => Some(Jongseong::Hieuh),
            27 => Some(Jongseong::KiyeokRieul),
            28 => Some(Jongseong::KiyeokSiosKiyeok),
            29 => Some(Jongseong::NieunKiyeok),
            30 => Some(Jongseong::NieunTikeut),
            31 => Some(Jongseong::NieunSios),
            32 => Some(Jongseong::NieunPansios),
            33 => Some(Jongseong::NieunThieuth),
            34 => Some(Jongseong::TikeutKiyeok),
            35 => Some(Jongseong::TikeutRieul),
            36 => Some(Jongseong::RieulKiyeokSios),
            37 => Some(Jongseong::RieulNieun),
            38 => Some(Jongseong::RieulTikeut),
            39 => Some(Jongseong::RieulTikeutHieuh),
            40 => Some(Jongseong::SsangRieul),
            41 => Some(Jongseong::RieulMieumKiyeok),
            42 => Some(Jongseong::RieulMieumSios),
            43 => Some(Jongseong::RieulPieupSios),
            44 => Some(Jongseong::RieulPieupHieuh),
            45 => Some(Jongseong::RieulKapyeounPieup),
            46 => Some(Jongseong::RieulSsangSios),
            47 => Some(Jongseong::RieulPansios),
            48 => Some(Jongseong::RieulKhieukh),
            49 => Some(Jongseong::RieulYeorinhieuh),
            50 => Some(Jongseong::MieumKiyeok),
            51 => Some(Jongseong::MieumRieul),
            52 => Some(Jongseong::MieumPieup),
            53 => Some(Jongseong::MieumSios),
            54 => Some(Jongseong::MieumSsangSios),
            55 => Some(Jongseong::MieumPansios),
            56 => Some(Jongseong::MieumChieuch),
            57 => Some(Jongseong::MieumHieuh),
            58 => Some(Jongseong::KapyeounMieum),
            59 => Some(Jongseong::PieupRieul),
            60 => Some(Jongseong::PieupPhieuph),
            61 => Some(Jongseong::PieupHieuh),
            62 => Some(Jongseong::KapyeounPieup),
            63 => Some(Jongseong::SiosKiyeok),
            64 => Some(Jongseong::SiosTikeut),
            65 => Some(Jongseong::SiosRieul),
            66 => Some(Jongseong::SiosPieup),
            67 => Some(Jongseong::Pansios),
            68 => Some(Jongseong::IeungKiyeok),
            69 => Some(Jongseong::IeungSsangKiyeok),
            70 => Some(Jongseong::SsangIeung),
            71 => Some(Jongseong::IeungKhieukh),
            72 => Some(Jongseong::Yesieung),
            73 => Some(Jongseong::YesieungSios),
            74 => Some(Jongseong::YesieungPansios),
            75 => Some(Jongseong::PhieuphPieup),
            76 => Some(Jongseong::KapyeounPhieuph),
            77 => Some(Jongseong::HieuhNieun),
            78 => Some(Jongseong::HieuhRieul),
            79 => Some(Jongseong::HieuhMieum),
            80 => Some(Jongseong::HieuhPieup),
            81 => Some(Jongseong::Yeorinhieuh),
            82 => Some(Jongseong::KiyeokNieun),
            83 => Some(Jongseong::KiyeokPieup),
            84 => Some(Jongseong::KiyeokChieuch),
            85 => Some(Jongseong::KiyeokKhieukh),
            86 => Some(Jongseong::KiyeokHieuh),
            87 => Some(Jongseong::SsangNieun),
            88 => Some(Jongseong::NieunRieul),
            89 => Some(Jongseong::NieunChieuch),
            90 => Some(Jongseong::SsangTikeut),
            91 => Some(Jongseong::SsangTikeutPieup),
            92 => Some(Jongseong::TikeutPieup),
            93 => Some(Jongseong::TikeutSios),
            94 => Some(Jongseong::TikeutSiosKiyeok),
            95 => Some(Jongseong::TikeutCieuc),
            96 => Some(Jongseong::TikeutChieuch),
            97 => Some(Jongseong::TikeutThieuth),
            98 => Some(Jongseong::RieulSsangKiyeok),
            99 => Some(Jongseong::RieulKiyeokHieuh),
            100 => Some(Jongseong::SsangRieulKhieukh),
            101 => Some(Jongseong::RieulMieumHieuh),
            102 => Some(Jongseong::RieulPieupTikeut),
            103 => Some(Jongseong::RieulPieupPhieuph),
            104 => Some(Jongseong::RieulYesieung),
            105 => Some(Jongseong::RieulYeorinhieuhHieuh),
            106 => Some(Jongseong::KapyeounRieul),
            107 => Some(Jongseong::MieumNieun),
            108 => Some(Jongseong::MieumSsangNieun),
            109 => Some(Jongseong::SsangMieum),
            110 => Some(Jongseong::MieumPieupSios),
            111 => Some(Jongseong::MieumCieuc),
            112 => Some(Jongseong::PieupTikeut),
            113 => Some(Jongseong::PieupRieulPhieuph),
            114 => Some(Jongseong::PieupMieum),
            115 => Some(Jongseong::SsangPieup),
            116 => Some(Jongseong::PieupSiosTikeut),
            117 => Some(Jongseong::PieupCieuc),
            118 => Some(Jongseong::PieupChieuch),
            119 => Some(Jongseong::SiosMieum),
            120 => Some(Jongseong::SiosKapyeounPieup),
            121 => Some(Jongseong::SsangSiosKiyeok),
            122 => Some(Jongseong::SsangSiosTikeut),
            123 => Some(Jongseong::SiosPansios),
            124 => Some(Jongseong::SiosCieuc),
            125 => Some(Jongseong::SiosChieuch),
            126 => Some(Jongseong::SiosThieuth),
            127 => Some(Jongseong::SiosHieuh),
            128 => Some(Jongseong::PansiosPieup),
            129 => Some(Jongseong::PansiosKapyeounPieup),
            130 => Some(Jongseong::YesieungMieum),
            131 => Some(Jongseong::YesieungHieuh),
            132 => Some(Jongseong::CieucPieup),
            133 => Some(Jongseong::CieucSsangPieup),
            134 => Some(Jongseong::SsangCieuc),
            135 => Some(Jongseong::PhieuphSios),
            136 => Some(Jongseong::PhieuphThieuth),
            _ => None,
        }
    }
}

/// The final consonant that sounds as the initial consonant `c`, if there is one.
#[verifier::opaque]
pub open spec fn spec_choseong_to_jongseong(c: Choseong) -> Option<Jongseong> {
    match c {
        Choseong::Kiyeok => Some(Jongseong::Kiyeok),
        Choseong::SsangKiyeok => Some(Jongseong::SsangKiyeok),
        Choseong::Nieun => Some(Jongseong::Nieun),
        Choseong::Tikeut => Some(Jongseong::Tikeut),
        Choseong::Rieul => Some(Jongseong::Rieul),
        Choseong::Mieum => Some(Jongseong::Mieum),
        Choseong::Pieup => Some(Jongseong::Pieup),
        Choseong::Sios => Some(Jongseong::Sios),
        Choseong::SsangSios => Some(Jongseong::SsangSios),
        Choseong::Ieung => Some(Jongseong::Ieung),
        Choseong::Cieuc => Some(Jongseong::Cieuc),
        Choseong::Chieuch => Some(Jongseong::Chieuch),
        Choseong::Khieukh => Some(Jongseong::Khieukh),
        Choseong::Thieuth => Some(Jongseong::Thieuth),
        Choseong::Phieuph => Some(Jongseong::Phieuph),
        Choseong::Hieuh => Some(Jongseong::Hieuh),
        Choseong::NieunKiyeok => Some(Jongseong::NieunKiyeok),
        Choseong::SsangNieun => Some(Jongseong::SsangNieun),
        Choseong::NieunTikeut => Some(Jongseong::NieunTikeut),
        Choseong::TikeutKiyeok => Some(Jongseong::TikeutKiyeok),
        Choseong::RieulNieun => Some(Jongseong::RieulNieun),
        Choseong::SsangRieul => Some(Jongseong::SsangRieul),
        Choseong::RieulHieuh => Some(Jongseong::RieulHieuh),
        Choseong::KapyeounRieul => Some(Jongseong::KapyeounRieul),
        Choseong::MieumPieup => Some(Jongseong::MieumPieup),
        Choseong::KapyeounMieum => Some(Jongseong::KapyeounMieum),
        Choseong::PieupTikeut => Some(Jongseong::PieupTikeut),
        Choseong::PieupSios => Some(Jongseong::PieupSios),
        Choseong::PieupSiosTikeut => Some(Jongseong::PieupSiosTikeut),
        Choseong::PieupCieuc => Some(Jongseong::PieupCieuc),
        Choseong::PieupChieuch => Some(Jongseong::PieupChieuch),
        Choseong::PieupPhieuph => Some(Jongseong::PieupPhieuph),
        Choseong::KapyeounPieup => Some(Jongseong::KapyeounPieup),
        Choseong::SiosKiyeok => Some(Jongseong::SiosKiyeok),
        Choseong::SiosTikeut => Some(Jongseong::SiosTikeut),
        Choseong::SiosRieul => Some(Jongseong::SiosRieul),
        Choseong::SiosMieum => Some(Jongseong::SiosMieum),
        Choseong::SiosPieup => Some(Jongseong::SiosPieup),
        Choseong::SiosCieuc => Some(Jongseong::SiosCieuc),
        Choseong::SiosChieuch => Some(Jongseong::SiosChieuch),
        Choseong::SiosThieuth => Some(Jongseong::SiosThieuth),
        Choseong::SiosHieuh => Some(Jongseong::SiosHieuh),
        Choseong::Pansios => Some(Jongseong::Pansios),
        Choseong::IeungKiyeok => Some(Jongseong::IeungKiyeok),
        Choseong::SsangIeung => Some(Jongseong::SsangIeung),
        Choseong::Yesieung => Some(Jongseong::Yesieung),
        Choseong::PhieuphPieup => Some(Jongseong::PhieuphPieup),
        Choseong::KapyeounPhieuph => Some(Jongseong::KapyeounPhieuph),
        Choseong::Yeorinhieuh => Some(Jongseong::Yeorinhieuh),
        Choseong::NieunSios => Some(Jongseong::NieunSios),
        Choseong::NieunCieuc => Some(Jongseong::NieunCieuc),
        Choseong::NieunHieuh => Some(Jongseong::NieunHieuh),
        Choseong::TikeutRieul => Some(Jongseong::TikeutRieul),
        Choseong::TikeutPieup => Some(Jongseong::TikeutPieup),
        Choseong::TikeutSios => Some(Jongseong::TikeutSios),
        Choseong::TikeutCieuc => Some(Jongseong::TikeutCieuc),
        Choseong::RieulKiyeok => Some(Jongseong::RieulKiyeok),
        Choseong::RieulSsangKiyeok => Some(Jongseong::RieulSsangKiyeok),
        Choseong::RieulTikeut => Some(Jongseong::RieulTikeut),
        Choseong::RieulMieum => Some(Jongseong::RieulMieum),
        Choseong::RieulPieup => Some(Jongseong::RieulPieup),
        Choseong::RieulKapyeounPieup => Some(Jongseong::RieulKapyeounPieup),
        Choseong::RieulSios => Some(Jongseong::RieulSios),
        Choseong::RieulKhieukh => Some(Jongseong::RieulKhieukh),
        Choseong::MieumKiyeok => Some(Jongseong::MieumKiyeok),
        Choseong::MieumSios => Some(Jongseong::MieumSios),
        Choseong::PieupHieuh => Some(Jongseong::PieupHieuh),
        _ => None,
    }
}

/// The final consonant that sounds as the initial consonant `c`, if there is one.
pub fn choseong_to_jongseong(c: Choseong) -> (r: Option<Jongseong>)
    ensures
        r == spec_choseong_to_jongseong(c),
{
    proof {
        reveal(spec_choseong_to_jongseong);
    }
    match c {
        Choseong::Kiyeok => Some(Jongseong::Kiyeok),
        Choseong::SsangKiyeok => Some(Jongseong::SsangKiyeok),
        Choseong::Nieun => Some(Jongseong::Nieun),
        Choseong::Tikeut => Some(Jongseong::Tikeut),
        Choseong::Rieul => Some(Jongseong::Rieul),
        Choseong::Mieum => Some(Jongseong::Mieum),
        Choseong::Pieup => Some(Jongseong::Pieup),
        Choseong::Sios => Some(Jongseong::Sios),
        Choseong::SsangSios => Some(Jongseong::SsangSios),
        Choseong::Ieung => Some(Jongseong::Ieung),
        Choseong::Cieuc => Some(Jongseong::Cieuc),
        Choseong::Chieuch => Some(Jongseong::Chieuch),
        Choseong::Khieukh => Some(Jongseong::Khieukh),
        Choseong::Thieuth => Some(Jongseong::Thieuth),
        Choseong::Phieuph => Some(Jongseong::Phieuph),
        Choseong::Hieuh => Some(Jongseong::Hieuh),
        Choseong::NieunKiyeok => Some(Jongseong::NieunKiyeok),
        Choseong::SsangNieun => Some(Jongseong::SsangNieun),
        Choseong::NieunTikeut => Some(Jongseong::NieunTikeut),
        Choseong::TikeutKiyeok => Some(Jongseong::TikeutKiyeok),
        Choseong::RieulNieun => Some(Jongseong::RieulNieun),
        Choseong::SsangRieul => Some(Jongseong::SsangRieul),
        Choseong::RieulHieuh => Some(Jongseong::RieulHieuh),
        Choseong::KapyeounRieul => Some(Jongseong::KapyeounRieul),
        Choseong::MieumPieup => Some(Jongseong::MieumPieup),
        Choseong::KapyeounMieum => Some(Jongseong::KapyeounMieum),
        Choseong::PieupTikeut => Some(Jongseong::PieupTikeut),
        Choseong::PieupSios => Some(Jongseong::PieupSios),
        Choseong::PieupSiosTikeut => Some(Jongseong::PieupSiosTikeut),
        Choseong::PieupCieuc => Some(Jongseong::PieupCieuc),
        Choseong::PieupChieuch => Some(Jongseong::PieupChieuch),
        Choseong::PieupPhieuph => Some(Jongseong::PieupPhieuph),
        Choseong::KapyeounPieup => Some(Jongseong::KapyeounPieup),
        Choseong::SiosKiyeok => Some(Jongseong::SiosKiyeok),
        Choseong::SiosTikeut => Some(Jongseong::SiosTikeut),
        Choseong::SiosRieul => Some(Jongseong::SiosRieul),
        Choseong::SiosMieum => Some(Jongseong::SiosMieum),
        Choseong::SiosPieup => Some(Jongseong::SiosPieup),
        Choseong::SiosCieuc => Some(Jongseong::SiosCieuc),
        Choseong::SiosChieuch => Some(Jongseong::SiosChieuch),
        Choseong::SiosThieuth => Some(Jongseong::SiosThieuth),
        Choseong::SiosHieuh => Some(Jongseong::SiosHieuh),
        Choseong::Pansios => Some(Jongseong::Pansios),
        Choseong::IeungKiyeok => Some(Jongseong::IeungKiyeok),
        Choseong::SsangIeung => Some(Jongseong::SsangIeung),
        Choseong::Yesieung => Some(Jongseong::Yesieung),
        Choseong::PhieuphPieup => Some(Jongseong::PhieuphPieup),
        Choseong::KapyeounPhieuph => Some(Jongseong::KapyeounPhieuph),
        Choseong::Yeorinhieuh => Some(Jongseong::Yeorinhieuh),
        Choseong::NieunSios => Some(Jongseong::NieunSios),
        Choseong::NieunCieuc => Some(Jongseong::NieunCieuc),
        Choseong::NieunHieuh => Some(Jongseong::NieunHieuh),
        Choseong::TikeutRieul => Some(Jongseong::TikeutRieul),
        Choseong::TikeutPieup => Some(Jongseong::TikeutPieup),
        Choseong::TikeutSios => Some(Jongseong::TikeutSios),
        Choseong::TikeutCieuc => Some(Jongseong::TikeutCieuc),
        Choseong::RieulKiyeok => Some(Jongseong::RieulKiyeok),
        Choseong::RieulSsangKiyeok => Some(Jongseong::RieulSsangKiyeok),
        Choseong::RieulTikeut => Some(Jongseong::RieulTikeut),
        Choseong::RieulMieum => Some(Jongseong::RieulMieum),
        Choseong::RieulPieup => Some(Jongseong::RieulPieup),
        Choseong::RieulKapyeounPieup => Some(Jongseong::RieulKapyeounPieup),
        Choseong::RieulSios => Some(Jongseong::RieulSios),
        Choseong::RieulKhieukh => Some(Jongseong::RieulKhieukh),
        Choseong::MieumKiyeok => Some(Jongseong::MieumKiyeok),
        Choseong::MieumSios => Some(Jongseong::MieumSios),
        Choseong::PieupHieuh => Some(Jongseong::PieupHieuh),
        _ => None,
    }
}

impl Choseong {
    /// The code point of the compatibility jamo that shows this jamo on its own,
    /// if there is one.
    pub open spec fn compat_code(self) -> Option<u32> {
        match self {
            Choseong::Kiyeok => Some(0x3131u32),
            Choseong::SsangKiyeok => Some(0x3132u32),
            Choseong::Nieun => Some(0x3134u32),
            Choseong::Tikeut => Some(0x3137u32),
            Choseong::SsangTikeut => Some(0x3138u32),
            Choseong::Rieul => Some(0x3139u32),
            Choseong::Mieum => Some(0x3141u32),
            Choseong::Pieup => Some(0x3142u32),
            Choseong::SsangPieup => Some(0x3143u32),
            Choseong::Sios => Some(0x3145u32),
            Choseong::SsangSios => Some(0x3146u32),
            Choseong::Ieung => Some(0x3147u32),
            Choseong::Cieuc => Some(0x3148u32),
            Choseong::SsangCieuc => Some(0x3149u32),
            Choseong::Chieuch => Some(0x314Au32),
            Choseong::Khieukh => Some(0x314Bu32),
            Choseong::Thieuth => Some(0x314Cu32),
            Choseong::Phieuph => Some(0x314Du32),
            Choseong::Hieuh => Some(0x314Eu32),
            Choseong::SsangNieun => Some(0x3165u32),
            Choseong::NieunTikeut => Some(0x3166u32),
            Choseong::RieulHieuh => Some(0x3140u32),
            Choseong::MieumPieup => Some(0x316Eu32),
            Choseong::KapyeounMieum => Some(0x3171u32),
            Choseong::PieupKiyeok => Some(0x3172u32),
            Choseong::PieupTikeut => Some(0x3173u32),
            Choseong::PieupSios => Some(0x3144u32),
            Choseong::PieupSiosKiyeok => Some(0x3174u32),
            Choseong::PieupSiosTikeut => Some(0x3175u32),
            Choseong::PieupCieuc => Some(0x3176u32),
            Choseong::PieupThieuth => Some(0x3177u32),
            Choseong::KapyeounPieup => Some(0x3178u32),
            Choseong::KapyeounSsangPieup => Some(0x3179u32),
            Choseong::SiosKiyeok => Some(0x317Au32),
            Choseong::SiosNieun => Some(0x317Bu32),
            Choseong::SiosTikeut => Some(0x317Cu32),
            Choseong::SiosPieup => Some(0x317Du32),
            Choseong::SiosCieuc => Some(0x317Eu32),
            Choseong::Pansios => Some(0x317Fu32),
            Choseong::SsangIeung => Some(0x3180u32),
            Choseong::Yesieung => Some(0x3181u32),
            Choseong::KapyeounPhieuph => Some(0x3184u32),
            Choseong::SsangHieuh => Some(0x3185u32),
            Choseong::Yeorinhieuh => Some(0x3186u32),
            Choseong::NieunSios => Some(0x3167u32),
            Choseong::NieunCieuc => Some(0x3135u32),
            Choseong::NieunHieuh => Some(0x3136u32),
            Choseong::RieulKiyeok => Some(0x313Au32),
            Choseong::RieulTikeut => Some(0x316Au32),
            Choseong::RieulMieum => Some(0x313Bu32),
            Choseong::RieulPieup => Some(0x313Cu32),
            Choseong::RieulSios => Some(0x313Du32),
            Choseong::MieumSios => Some(0x316Fu32),
            _ => None,
        }
    }

    /// The code point of the compatibility jamo that shows this jamo on its own,
    /// if there is one.
    pub fn compat(self) -> (r: Option<u32>)
        ensures
            r == self.compat_code(),
    {
        match self {
            Choseong::Kiyeok => Some(0x3131),
            Choseong::SsangKiyeok => Some(0x3132),
            Choseong::Nieun => Some(0x3134),
            Choseong::Tikeut => Some(0x3137),
            Choseong::SsangTikeut => Some(0x3138),
            Choseong::Rieul => Some(0x3139),
            Choseong::Mieum => Some(0x3141),
            Choseong::Pieup => Some(0x3142),
            Choseong::SsangPieup => Some(0x3143),
            Choseong::Sios => Some(0x3145),
            Choseong::SsangSios => Some(0x3146),
            Choseong::Ieung => Some(0x3147),
            Choseong::Cieuc => Some(0x3148),
            Choseong::SsangCieuc => Some(0x3149),
            Choseong::Chieuch => Some(0x314A),
            Choseong::Khieukh => Some(0x314B),
            Choseong::Thieuth => Some(0x314C),
            Choseong::Phieuph => Some(0x314D),
            Choseong::Hieuh => Some(0x314E),
            Choseong::SsangNieun => Some(0x3165),
            Choseong::NieunTikeut => Some(0x3166),
            Choseong::RieulHieuh => Some(0x3140),
            Choseong::MieumPieup => Some(0x316E),
            Choseong::KapyeounMieum => Some(0x3171),
            Choseong::PieupKiyeok => Some(0x3172),
            Choseong::PieupTikeut => Some(0x3173),
            Choseong::PieupSios => Some(0x3144),
            Choseong::PieupSiosKiyeok => Some(0x3174),
            Choseong::PieupSiosTikeut => Some(0x3175),
            Choseong::PieupCieuc => Some(0x3176),
            Choseong::PieupThieuth => Some(0x3177),
            Choseong::KapyeounPieup => Some(0x3178),
            Choseong::KapyeounSsangPieup => Some(0x3179),
            Choseong::SiosKiyeok => Some(0x317A),
            Choseong::SiosNieun => Some(0x317B),
            Choseong::SiosTikeut => Some(0x317C),
            Choseong::SiosPieup => Some(0x317D),
            Choseong::SiosCieuc => Some(0x317E),
            Choseong::Pansios => Some(0x317F),
            Choseong::SsangIeung => Some(0x3180),
            Choseong::Yesieung => Some(0x3181),
            Choseong::KapyeounPhieuph => Some(0x3184),
            Choseong::SsangHieuh => Some(0x3185),
            Choseong::Yeorinhieuh => Some(0x3186),
            Choseong::NieunSios => Some(0x3167),
            Choseong::NieunCieuc => Some(0x3135),
            Choseong::NieunHieuh => Some(0x3136),
            Choseong::RieulKiyeok => Some(0x313A),
            Choseong::RieulTikeut => Some(0x316A),
            Choseong::RieulMieum => Some(0x313B),
            Choseong::RieulPieup => Some(0x313C),
            Choseong::RieulSios => Some(0x313D),
            Choseong::MieumSios => Some(0x316F),
            _ => None,
        }
    }
}

impl Jungseong {
    /// The code point of the compatibility jamo that shows this jamo on its own,
    /// if there is one.
    pub open spec fn compat_code(self) -> Option<u32> {
        match self {
            Jungseong::A => Some(0x314Fu32),
            Jungseong::Ae => Some(0x3150u32),
            Jungseong::Ya => Some(0x3151u32),
            Jungseong::Yae => Some(0x3152u32),
            Jungseong::Eo => Some(0x3153u32),
            Jungseong::E => Some(0x3154u32),
            Jungseong::Yeo => Some(0x3155u32),
            Jungseong::Ye => Some(0x3156u32),
            Jungseong::O => Some(0x3157u32),
            Jungseong::Wa => Some(0x3158u32),
            Jungseong::Wae => Some(0x3159u32),
            Jungseong::Oe => Some(0x315Au32),
            Jungseong::Yo => Some(0x315Bu32),
            Jungseong::U => Some(0x315Cu32),
            Jungseong::Weo => Some(0x315Du32),
            Jungseong::We => Some(0x315Eu32),
            Jungseong::Wi => Some(0x315Fu32),
            Jungseong::Yu => Some(0x3160u32),
            Jungseong::Eu => Some(0x3161u32),
            Jungseong::Yi => Some(0x3162u32),
            Jungseong::I => Some(0x3163u32),
            Jungseong::YoYa => Some(0x3187u32),
            Jungseong::YoYae => Some(0x3188u32),
            Jungseong::YoI => Some(0x3189u32),
            Jungseong::YuYeo => Some(0x318Au32),
            Jungseong::YuYe => Some(0x318Bu32),
            Jungseong::YuI => Some(0x318Cu32),
            Jungseong::Araea => Some(0x318Du32),
            Jungseong::AraeaI => Some(0x318Eu32),
            _ => None,
        }
    }

    /// The code point of the compatibility jamo that shows this jamo on its own,
    /// if there is one.
    pub fn compat(self) -> (r: Option<u32>)
        ensures
            r == self.compat_code(),
    {
        match self {
            Jungseong::A => Some(0x314F),
            Jungseong::Ae => Some(0x3150),
            Jungseong::Ya => Some(0x3151),
            Jungseong::Yae => Some(0x3152),
            Jungseong::Eo => Some(0x3153),
            Jungseong::E => Some(0x3154),
            Jungseong::Yeo => Some(0x3155),
            Jungseong::Ye => Some(0x3156),
            Jungseong::O => Some(0x3157),
            Jungseong::Wa => Some(0x3158),
            Jungseong::Wae => Some(0x3159),
            Jungseong::Oe => Some(0x315A),
            Jungseong::Yo => Some(0x315B),
            Jungseong::U => Some(0x315C),
            Jungseong::Weo => Some(0x315D),
            Jungseong::We => Some(0x315E),
            Jungseong::Wi => Some(0x315F),
            Jungseong::Yu => Some(0x3160),
            Jungseong::Eu => Some(0x3161),
            Jungseong::Yi => Some(0x3162),
            Jungseong::I => Some(0x3163),
            Jungseong::YoYa => Some(0x3187),
            Jungseong::YoYae => Some(0x3188),
            Jungseong::YoI => Some(0x3189),
            Jungseong::YuYeo => Some(0x318A),
            Jungseong::YuYe => Some(0x318B),
            Jungseong::YuI => Some(0x318C),
            Jungseong::Araea => Some(0x318D),
            Jungseong::AraeaI => Some(0x318E),
            _ => None,
        }
    }
}

impl Jongseong {
    /// The code point of the compatibility jamo that shows this jamo on its own,
    /// if there is one.
    pub open spec fn compat_code(self) -> Option<u32> {
        match self {
            Jongseong::Kiyeok => Some(0x3131u32),
            Jongseong::SsangKiyeok => Some(0x3132u32),
            Jongseong::KiyeokSios => Some(0x3133u32),
            Jongseong::Nieun => Some(0x3134u32),
            Jongseong::NieunCieuc => Some(0x3135u32),
            Jongseong::NieunHieuh => Some(0x3136u32),
            Jongseong::Tikeut => Some(0x3137u32),
            Jongseong::Rieul => Some(0x3139u32),
            Jongseong::RieulKiyeok => Some(0x313Au32),
            Jongseong::RieulMieum => Some(0x313Bu32),
            Jongseong::RieulPieup => Some(0x313Cu32),
            Jongseong::RieulSios => Some(0x313Du32),
            Jongseong::RieulThieuth => Some(0x313Eu32),
            Jongseong::RieulPhieuph => Some(0x313Fu32),
            Jongseong::RieulHieuh => Some(0x3140u32),
            Jongseong::Mieum => Some(0x3141u32),
            Jongseong::Pieup => Some(0x3142u32),
            Jongseong::PieupSios => Some(0x3144u32),
            Jongseong::Sios => Some(0x3145u32),
            Jongseong::SsangSios => Some(0x3146u32),
            Jongseong::Ieung => Some(0x3147u32),
            Jongseong::Cieuc => Some(0x3148u32),
            Jongseong::Chieuch => Some(0x314Au32),
            Jongseong::Khieukh => Some(0x314Bu32),
            Jongseong::Thieuth => Some(0x314Cu32),
            Jongseong::Phieuph => Some(0x314Du32),
            Jongseong::Hieuh => Some(0x314Eu32),
            Jongseong::NieunTikeut => Some(0x3166u32),
            Jongseong::NieunSios => Some(0x3167u32),
            Jongseong::NieunPansios => Some(0x3168u32),
            Jongseong::RieulKiyeokSios => Some(0x3169u32),
            Jongseong::RieulTikeut => Some(0x316Au32),
            Jongseong::RieulPieupSios => Some(0x316Bu32),
            Jongseong::RieulPansios => Some(0x316Cu32),
            Jongseong::RieulYeorinhieuh => Some(0x316Du32),
            Jongseong::MieumPieup => Some(0x316Eu32),
            Jongseong::MieumSios => Some(0x316Fu32),
            Jongseong::MieumPansios => Some(0x3170u32),
            Jongseong::KapyeounMieum => Some(0x3171u32),
            Jongseong::KapyeounPieup => Some(0x3178u32),
            Jongseong::SiosKiyeok => Some(0x317Au32),
            Jongseong::SiosTikeut => Some(0x317Cu32),
            Jongseong::SiosPieup => Some(0x317Du32),
            Jongseong::Pansios => Some(0x317Fu32),
            Jongseong::SsangIeung => Some(0x3180u32),
            Jongseong::Yesieung => Some(0x3181u32),
            Jongseong::YesieungSios => Some(0x3182u32),
            Jongseong::YesieungPansios => Some(0x3183u32),
            Jongseong::KapyeounPhieuph => Some(0x3184u32),
            Jongseong::Yeorinhieuh => Some(0x3186u32),
            Jongseong::SsangNieun => Some(0x3165u32),
            Jongseong::SsangTikeut => Some(0x3138u32),
            Jongseong::PieupTikeut => Some(0x3173u32),
            Jongseong::SsangPieup => Some(0x3143u32),
            Jongseong::PieupSiosTikeut => Some(0x3175u32),
            Jongseong::PieupCieuc => Some(0x3176u32),
            Jongseong::SiosCieuc => Some(0x317Eu32),
            Jongseong::SsangCieuc => Some(0x3149u32),
            _ => None,
        }
    }

    /// The code point of the compatibility jamo that shows this jamo on its own,
    /// if there is one.
    pub fn compat(self) -> (r: Option<u32>)
        ensures
            r == self.compat_code(),
    {
        match self {
            Jongseong::Kiyeok => Some(0x3131),
            Jongseong::SsangKiyeok => Some(0x3132),
            Jongseong::KiyeokSios => Some(0x3133),
            Jongseong::Nieun => Some(0x3134),
            Jongseong::NieunCieuc => Some(0x3135),
            Jongseong::NieunHieuh => Some(0x3136),
            Jongseong::Tikeut => Some(0x3137),
            Jongseong::Rieul => Some(0x3139),
            Jongseong::RieulKiyeok => Some(0x313A),
            Jongseong::RieulMieum => Some(0x313B),
            Jongseong::RieulPieup => Some(0x313C),
            Jongseong::RieulSios => Some(0x313D),
            Jongseong::RieulThieuth => Some(0x313E),
            Jongseong::RieulPhieuph => Some(0x313F),
            Jongseong::RieulHieuh => Some(0x3140),
            Jongseong::Mieum => Some(0x3141),
            Jongseong::Pieup => Some(0x3142),
            Jongseong::PieupSios => Some(0x3144),
            Jongseong::Sios => Some(0x3145),
            Jongseong::SsangSios => Some(0x3146),
            Jongseong::Ieung => Some(0x3147),
            Jongseong::Cieuc => Some(0x3148),
            Jongseong::Chieuch => Some(0x314A),
            Jongseong::Khieukh => Some(0x314B),
            Jongseong::Thieuth => Some(0x314C),
            Jongseong::Phieuph => Some(0x314D),
            Jongseong::Hieuh => Some(0x314E),
            Jongseong::NieunTikeut => Some(0x3166),
            Jongseong::NieunSios => Some(0x3167),
            Jongseong::NieunPansios => Some(0x3168),
            Jongseong::RieulKiyeokSios => Some(0x3169),
            Jongseong::RieulTikeut => Some(0x316A),
            Jongseong::RieulPieupSios => Some(0x316B),
            Jongseong::RieulPansios => Some(0x316C),
            Jongseong::RieulYeorinhieuh => Some(0x316D),
            Jongseong::MieumPieup => Some(0x316E),
            Jongseong::MieumSios => Some(0x316F),
            Jongseong::MieumPansios => Some(0x3170),
            Jongseong::KapyeounMieum => Some(0x3171),
            Jongseong::KapyeounPieup => Some(0x3178),
            Jongseong::SiosKiyeok => Some(0x317A),
            Jongseong::SiosTikeut => Some(0x317C),
            Jongseong::SiosPieup => Some(0x317D),
            Jongseong::Pansios => Some(0x317F),
            Jongseong::SsangIeung => Some(0x3180),
            Jongseong::Yesieung => Some(0x3181),
            Jongseong::YesieungSios => Some(0x3182),
            Jongseong::YesieungPansios => Some(0x3183),
            Jongseong::KapyeounPhieuph => Some(0x3184),
            Jongseong::Yeorinhieuh => Some(0x3186),
            Jongseong::SsangNieun => Some(0x3165),
            Jongseong::SsangTikeut => Some(0x3138),
            Jongseong::PieupTikeut => Some(0x3173),
            Jongseong::SsangPieup => Some(0x3143),
            Jongseong::PieupSiosTikeut => Some(0x3175),
            Jongseong::PieupCieuc => Some(0x3176),
            Jongseong::SiosCieuc => Some(0x317E),
            Jongseong::SsangCieuc => Some(0x3149),
            _ => None,
        }
    }
}

/// The conjoining jamo that a compatibility jamo stands for: an initial consonant
/// where there is one, else a final consonant; a vowel for a vowel.
pub open spec fn spec_cjamo_to_jamo_code(n: u32) -> Option<u32> {
    match n {
        0x3131 => Some(0x1100u32),
        0x3132 => Some(0x1101u32),
        0x3133 => Some(0x11AAu32),
        0x3134 => Some(0x1102u32),
        0x3135 => Some(0x115Cu32),
        0x3136 => Some(0x115Du32),
        0x3137 => Some(0x1103u32),
        0x3138 => Some(0x1104u32),
        0x3139 => Some(0x1105u32),
        0x313A => Some(0xA964u32),
        0x313B => Some(0xA968u32),
        0x313C => Some(0xA969u32),
        0x313D => Some(0xA96Cu32),
        0x313E => Some(0x11B4u32),
        0x313F => Some(0x11B5u32),
        0x3140 => Some(0x111Au32),
        0x3141 => Some(0x1106u32),
        0x3142 => Some(0x1107u32),
        0x3143 => Some(0x1108u32),
        0x3144 => Some(0x1121u32),
        0x3145 => Some(0x1109u32),
        0x3146 => Some(0x110Au32),
        0x3147 => Some(0x110Bu32),
        0x3148 => Some(0x110Cu32),
        0x3149 => Some(0x110Du32),
        0x314A => Some(0x110Eu32),
        0x314B => Some(0x110Fu32),
        0x314C => Some(0x1110u32),
        0x314D => Some(0x1111u32),
        0x314E => Some(0x1112u32),
        0x314F => Some(0x1161u32),
        0x3150 => Some(0x1162u32),
        0x3151 => Some(0x1163u32),
        0x3152 => Some(0x1164u32),
        0x3153 => Some(0x1165u32),
        0x3154 => Some(0x1166u32),
        0x3155 => Some(0x1167u32),
        0x3156 => Some(0x1168u32),
        0x3157 => Some(0x1169u32),
        0x3158 => Some(0x116Au32),
        0x3159 => Some(0x116Bu32),
        0x315A => Some(0x116Cu32),
        0x315B => Some(0x116Du32),
        0x315C => Some(0x116Eu32),
        0x315D => Some(0x116Fu32),
        0x315E => Some(0x1170u32),
        0x315F => Some(0x1171u32),
        0x3160 => Some(0x1172u32),
        0x3161 => Some(0x1173u32),
        0x3162 => Some(0x1174u32),
        0x3163 => Some(0x1175u32),
        0x3165 => Some(0x1114u32),
        0x3166 => Some(0x1115u32),
        0x3167 => Some(0x115Bu32),
        0x3168 => Some(0x11C8u32),
        0x3169 => Some(0x11CCu32),
        0x316A => Some(0xA966u32),
        0x316B => Some(0x11D3u32),
        0x316C => Some(0x11D7u32),
        0x316D => Some(0x11D9u32),
        0x316E => Some(0x111Cu32),
        0x316F => Some(0xA971u32),
        0x3170 => Some(0x11DFu32),
        0x3171 => Some(0x111Du32),
        0x3172 => Some(0x111Eu32),
        0x3173 => Some(0x1120u32),
        0x3174 => Some(0x1122u32),
        0x3175 => Some(0x1123u32),
        0x3176 => Some(0x1127u32),
        0x3177 => Some(0x1129u32),
        0x3178 => Some(0x112Bu32),
        0x3179 => Some(0x112Cu32),
        0x317A => Some(0x112Du32),
        0x317B => Some(0x112Eu32),
        0x317C => Some(0x112Fu32),
        0x317D => Some(0x1132u32),
        0x317E => Some(0x1136u32),
        0x317F => Some(0x1140u32),
        0x3180 => Some(0x1147u32),
        0x3181 => Some(0x114Cu32),
        0x3182 => Some(0x11F1u32),
        0x3183 => Some(0x11F2u32),
        0x3184 => Some(0x1157u32),
        0x3185 => Some(0x1158u32),
        0x3186 => Some(0x1159u32),
        0x3187 => Some(0x1184u32),
        0x3188 => Some(0x1185u32),
        0x3189 => Some(0x1188u32),
        0x318A => Some(0x1191u32),
        0x318B => Some(0x1192u32),
        0x318C => Some(0x1194u32),
        0x318D => Some(0x119Eu32),
        0x318E => Some(0x11A1u32),
        _ => None,
    }
}

/// The conjoining jamo that a compatibility jamo stands for: an initial consonant
/// where there is one, else a final consonant; a vowel for a vowel.
pub fn cjamo_to_jamo_code(n: u32) -> (r: Option<u32>)
    ensures
        r == spec_cjamo_to_jamo_code(n),
{
    match n {
        0x3131 => Some(0x1100),
        0x3132 => Some(0x1101),
        0x3133 => Some(0x11AA),
        0x3134 => Some(0x1102),
        0x3135 => Some(0x115C),
        0x3136 => Some(0x115D),
        0x3137 => Some(0x1103),
        0x3138 => Some(0x1104),
        0x3139 => Some(0x1105),
        0x313A => Some(0xA964),
        0x313B => Some(0xA968),
        0x313C => Some(0xA969),
        0x313D => Some(0xA96C),
        0x313E => Some(0x11B4),
        0x313F => Some(0x11B5),
        0x3140 => Some(0x111A),
        0x3141 => Some(0x1106),
        0x3142 => Some(0x1107),
        0x3143 => Some(0x1108),
        0x3144 => Some(0x1121),
        0x3145 => Some(0x1109),
        0x3146 => Some(0x110A),
        0x3147 => Some(0x110B),
        0x3148 => Some(0x110C),
        0x3149 => Some(0x110D),
        0x314A => Some(0x110E),
        0x314B => Some(0x110F),
        0x314C => Some(0x1110),
        0x314D => Some(0x1111),
        0x314E => Some(0x1112),
        0x314F => Some(0x1161),
        0x3150 => Some(0x1162),
        0x3151 => Some(0x1163),
        0x3152 => Some(0x1164),
        0x3153 => Some(0x1165),
        0x3154 => Some(0x1166),
        0x3155 => Some(0x1167),
        0x3156 => Some(0x1168),
        0x3157 => Some(0x1169),
        0x3158 => Some(0x116A),
        0x3159 => Some(0x116B),
        0x315A => Some(0x116C),
        0x315B => Some(0x116D),
        0x315C => Some(0x116E),
        0x315D => Some(0x116F),
        0x315E => Some(0x1170),
        0x315F => Some(0x1171),
        0x3160 => Some(0x1172),
        0x3161 => Some(0x1173),
        0x3162 => Some(0x1174),
        0x3163 => Some(0x1175),
        0x3165 => Some(0x1114),
        0x3166 => Some(0x1115),
        0x3167 => Some(0x115B),
        0x3168 => Some(0x11C8),
        0x3169 => Some(0x11CC),
        0x316A => Some(0xA966),
        0x316B => Some(0x11D3),
        0x316C => Some(0x11D7),
        0x316D => Some(0x11D9),
        0x316E => Some(0x111C),
        0x316F => Some(0xA971),
        0x3170 => Some(0x11DF),
        0x3171 => Some(0x111D),
        0x3172 => Some(0x111E),
        0x3173 => Some(0x1120),
        0x3174 => Some(0x1122),
        0x3175 => Some(0x1123),
        0x3176 => Some(0x1127),
        0x3177 => Some(0x1129),
        0x3178 => Some(0x112B),
        0x3179 => Some(0x112C),
        0x317A => Some(0x112D),
        0x317B => Some(0x112E),
        0x317C => Some(0x112F),
        0x317D => Some(0x1132),
        0x317E => Some(0x1136),
        0x317F => Some(0x1140),
        0x3180 => Some(0x1147),
        0x3181 => Some(0x114C),
        0x3182 => Some(0x11F1),
        0x3183 => Some(0x11F2),
        0x3184 => Some(0x1157),
        0x3185 => Some(0x1158),
        0x3186 => Some(0x1159),
        0x3187 => Some(0x1184),
        0x3188 => Some(0x1185),
        0x3189 => Some(0x1188),
        0x318A => Some(0x1191),
        0x318B => Some(0x1192),
        0x318C => Some(0x1194),
        0x318D => Some(0x119E),
        0x318E => Some(0x11A1),
        _ => None,
    }
}


/// `n` is a Unicode scalar value, the code of some `char`.
pub open spec fn is_scalar_value(n: u32) -> bool {
    n <= 0xD7FF || (0xE000 <= n && n <= 0x10FFFF)
}

/// Calls `char::from_u32`, whose documentation says that it returns the `char`
/// with code `n` when `n` is a Unicode scalar value and `None` otherwise.
#[verifier::external_body]
pub(crate) fn char_from_u32(n: u32) -> (r: Option<char>)
    ensures
        r is Some <==> is_scalar_value(n),
        r matches Some(c) ==> c as u32 == n,
{
    char::from_u32(n)
}

/// Every jamo has a position below the number of jamo of its class.
pub broadcast proof fn lemma_choseong_index(x: Choseong)
    ensures
        #[trigger] x.index() < 124,
        Choseong::at_index(x.index() as u32) == Some(x),
{
}

/// Every jamo has a position below the number of jamo of its class.
pub broadcast proof fn lemma_jungseong_index(x: Jungseong)
    ensures
        #[trigger] x.index() < 94,
        Jungseong::at_index(x.index() as u32) == Some(x),
{
}

/// Every jamo has a position below the number of jamo of its class.
pub broadcast proof fn lemma_jongseong_index(x: Jongseong)
    ensures
        #[trigger] x.index() < 137,
        Jongseong::at_index(x.index() as u32) == Some(x),
{
}

/// The positions of the enumeration are exactly those below its length.
pub broadcast proof fn lemma_choseong_at_index(i: u32)
    ensures
        #[trigger] Choseong::at_index(i) is Some <==> i < 124,
        Choseong::at_index(i) matches Some(x) ==> x.index() == i,
{
}

/// The positions of the enumeration are exactly those below its length.
pub broadcast proof fn lemma_jungseong_at_index(i: u32)
    ensures
        #[trigger] Jungseong::at_index(i) is Some <==> i < 94,
        Jungseong::at_index(i) matches Some(x) ==> x.index() == i,
{
}

/// The positions of the enumeration are exactly those below its length.
pub broadcast proof fn lemma_jongseong_at_index(i: u32)
    ensures
        #[trigger] Jongseong::at_index(i) is Some <==> i < 137,
        Jongseong::at_index(i) matches Some(x) ==> x.index() == i,
{
}

pub broadcast group group_jamo_index {
    lemma_choseong_index,
    lemma_jungseong_index,
    lemma_jongseong_index,
    lemma_choseong_at_index,
    lemma_jungseong_at_index,
    lemma_jongseong_at_index,
}


impl Choseong {
    /// The conjoining jamo itself.
    pub fn to_char(self) -> (c: char)
        ensures
            c as u32 == self.code(),
    {
        proof {
            broadcast use group_jamo_index;
        }
        let i = self.ordinal();
        let n: u32 = if i < 95 { 0x1100 + i } else { 0xA960 + (i - 95) };
        match char_from_u32(n) {
            Some(c) => c,
            None => {
                proof { assert(false); }
                '\u{0}'
            }
        }
    }

    /// The jamo of class `Choseong` whose code point is that of `c`.
    pub open spec fn spec_from_char(c: char) -> Option<Choseong> {
        Choseong::from_code(c as u32)
    }

    /// `from_code` finds exactly the jamo with the given code point.
    pub proof fn lemma_from_code(n: u32, x: Choseong)
        ensures
            Choseong::from_code(n) == Some(x) <==> x.code() == n,
    {
        broadcast use group_jamo_index;
    }

    /// The jamo of class `Choseong` whose code point is that of `c`, if there is one.
    pub fn from_char(c: char) -> (r: Option<Choseong>)
        ensures
            r == Choseong::spec_from_char(c),
    {
        let n = c as u32;
        if 0x1100 <= n && n <= 0x115E {
            Choseong::from_ordinal(n - 0x1100)
        } else if 0xA960 <= n && n <= 0xA97C {
            Choseong::from_ordinal(n - 0xA960 + 95)
        } else {
            None
        }
    }
}

impl Jungseong {
    /// The conjoining jamo itself.
    pub fn to_char(self) -> (c: char)
        ensures
            c as u32 == self.code(),
    {
        proof {
            broadcast use group_jamo_index;
        }
        let i = self.ordinal();
        let n: u32 = if i < 71 { 0x1161 + i } else { 0xD7B0 + (i - 71) };
        match char_from_u32(n) {
            Some(c) => c,
            None => {
                proof { assert(false); }
                '\u{0}'
            }
        }
    }

    /// The jamo of class `Jungseong` whose code point is that of `c`.
    pub open spec fn spec_from_char(c: char) -> Option<Jungseong> {
        Jungseong::from_code(c as u32)
    }

    /// `from_code` finds exactly the jamo with the given code point.
    pub proof fn lemma_from_code(n: u32, x: Jungseong)
        ensures
            Jungseong::from_code(n) == Some(x) <==> x.code() == n,
    {
        broadcast use group_jamo_index;
    }

    /// The jamo of class `Jungseong` whose code point is that of `c`, if there is one.
    pub fn from_char(c: char) -> (r: Option<Jungseong>)
        ensures
            r == Jungseong::spec_from_char(c),
    {
        let n = c as u32;
        if 0x1161 <= n && n <= 0x11A7 {
            Jungseong::from_ordinal(n - 0x1161)
        } else if 0xD7B0 <= n && n <= 0xD7C6 {
            Jungseong::from_ordinal(n - 0xD7B0 + 71)
        } else {
            None
        }
    }
}

impl Jongseong {
    /// The conjoining jamo itself.
    pub fn to_char(self) -> (c: char)
        ensures
            c as u32 == self.code(),
    {
        proof {
            broadcast use group_jamo_index;
        }
        let i = self.ordinal();
        let n: u32 = if i < 88 { 0x11A8 + i } else { 0xD7CB + (i - 88) };
        match char_from_u32(n) {
            Some(c) => c,
            None => {
                proof { assert(false); }
                '\u{0}'
            }
        }
    }

    /// The jamo of class `Jongseong` whose code point is that of `c`.
    pub open spec fn spec_from_char(c: char) -> Option<Jongseong> {
        Jongseong::from_code(c as u32)
    }

    /// `from_code` finds exactly the jamo with the given code point.
    pub proof fn lemma_from_code(n: u32, x: Jongseong)
        ensures
            Jongseong::from_code(n) == Some(x) <==> x.code() == n,
    {
        broadcast use group_jamo_index;
    }

    /// The jamo of class `Jongseong` whose code point is that of `c`, if there is one.
    pub fn from_char(c: char) -> (r: Option<Jongseong>)
        ensures
            r == Jongseong::spec_from_char(c),
    {
        let n = c as u32;
        if 0x11A8 <= n && n <= 0x11FF {
            Jongseong::from_ordinal(n - 0x11A8)
        } else if 0xD7CB <= n && n <= 0xD7FB {
            Jongseong::from_ordinal(n - 0xD7CB + 88)
        } else {
            None
        }
    }
}


impl From<Choseong> for char {
    fn from(x: Choseong) -> (c: char) {
        x.to_char()
    }
}

impl vstd::std_specs::convert::FromSpecImpl<Choseong> for char {
    open spec fn obeys_from_spec() -> bool {
        true
    }

    open spec fn from_spec(x: Choseong) -> char {
        x.code() as char
    }
}

impl From<Jungseong> for char {
    fn from(x: Jungseong) -> (c: char) {
        x.to_char()
    }
}

impl vstd::std_specs::convert::FromSpecImpl<Jungseong> for char {
    open spec fn obeys_from_spec() -> bool {
        true
    }

    open spec fn from_spec(x: Jungseong) -> char {
        x.code() as char
    }
}

impl From<Jongseong> for char {
    fn from(x: Jongseong) -> (c: char) {
        x.to_char()
    }
}

impl vstd::std_specs::convert::FromSpecImpl<Jongseong> for char {
    open spec fn obeys_from_spec() -> bool {
        true
    }

    open spec fn from_spec(x: Jongseong) -> char {
        x.code() as char
    }
}

} // verus!
