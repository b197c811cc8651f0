//! Fixed-point trigonometry lookup tables indexed by the quantized angle
//! unit: 1920 units per full revolution, one unit per screen column at the
//! configured 30-degree field of view, so one unit is 3/16 of a degree.
//!
//! Values are scaled by 256. Only the first quadrant is stored: 481 entries,
//! for angle units 0 through 480 (0 through 90 degrees); the lookups recover
//! the full revolution through the usual reflection and sign symmetries.

use vstd::prelude::*;

verus! {

/// Angle units in a full revolution.
pub const FULL_TURN: usize = 1920;

/// Stand-in stored where the tangent diverges (exactly a quarter turn).
/// Callers never read it: the marches abstain at the degenerate angles.
pub const TAN_DIVERGED: i32 = 131072;

/// What the tangent quarter table promises of its entry at index `i`:
/// bounded, zero exactly at angle zero, at most one (scaled) up to the
/// 45-degree index 240 and at least one from there on.
pub open spec fn spec_tan_entry_ok(i: int, v: i32) -> bool {
    &&& 0 <= v <= 131072
    &&& (i == 0 <==> v == 0)
    &&& (i <= 240 ==> v <= 256)
    &&& (i >= 240 ==> v >= 256)
}

/// What the sine quarter table promises of its entry at index `i`.
pub open spec fn spec_sin_entry_ok(i: int, v: i32) -> bool {
    &&& 0 <= v <= 256
    &&& (i == 0 <==> v == 0)
    &&& (i == 480 ==> v == 256)
}

pub open spec fn spec_tan_table_wf(tq: Seq<i32>) -> bool {
    &&& tq.len() == 481
    &&& forall|i: int| 0 <= i < 481 ==> spec_tan_entry_ok(i, #[trigger] tq[i])
}

pub open spec fn spec_sin_table_wf(sq: Seq<i32>) -> bool {
    &&& sq.len() == 481
    &&& forall|i: int| 0 <= i < 481 ==> spec_sin_entry_ok(i, #[trigger] sq[i])
}

/// Scaled tangent over the full revolution, from the quarter table: the
/// tangent has period of a half turn and is odd around it.
pub open spec fn spec_tan_fp(tq: Seq<i32>, a: int) -> int {
    let b = a % 960;
    if b <= 480 {
        tq[b] as int
    } else {
        -(tq[960 - b] as int)
    }
}

/// Scaled cotangent over the full revolution: the tangent of the
/// complementary angle, diverging at angle zero and half turn.
pub open spec fn spec_cot_fp(tq: Seq<i32>, a: int) -> int {
    let b = a % 960;
    if b == 0 {
        TAN_DIVERGED as int
    } else if b <= 480 {
        tq[480 - b] as int
    } else {
        -(tq[b - 480] as int)
    }
}

/// Scaled sine over the full revolution, from the quarter table.
pub open spec fn spec_sin_fp(sq: Seq<i32>, a: int) -> int {
    let b = a % 1920;
    if b <= 480 {
        sq[b] as int
    } else if b <= 960 {
        sq[960 - b] as int
    } else if b <= 1440 {
        -(sq[b - 960] as int)
    } else {
        -(sq[1920 - b] as int)
    }
}

/// Scaled cosine: the sine a quarter turn ahead.
pub open spec fn spec_cos_fp(sq: Seq<i32>, a: int) -> int {
    spec_sin_fp(sq, (a + 480) % 1920)
}

/// The precomputed lookup tables. Built once; the renderer only reads them.
pub struct TrigTables {
    pub tan_q: Vec<i32>,
    pub sin_q: Vec<i32>,
}

impl TrigTables {
    pub open spec fn wf(&self) -> bool {
        &&& spec_tan_table_wf(self.tan_q@)
        &&& spec_sin_table_wf(self.sin_q@)
    }

    /// Build the tables.
    pub fn new() -> (t: TrigTables)
        ensures
            t.wf(),
    {
        TrigTables { tan_q: tan_quarter_table(), sin_q: sin_quarter_table() }
    }

    /// Scaled tangent of angle unit `a`.
    pub fn tan_fp(&self, a: usize) -> (r: i32)
        requires
            self.wf(),
            a < FULL_TURN,
        ensures
            r as int == spec_tan_fp(self.tan_q@, a as int),
            -131072 <= r <= 131072,
    {
        let b = a % 960;
        if b <= 480 {
            self.tan_q[b]
        } else {
            -self.tan_q[960 - b]
        }
    }

    /// Scaled cotangent of angle unit `a`.
    pub fn cot_fp(&self, a: usize) -> (r: i32)
        requires
            self.wf(),
            a < FULL_TURN,
        ensures
            r as int == spec_cot_fp(self.tan_q@, a as int),
            -131072 <= r <= 131072,
    {
        let b = a % 960;
        if b == 0 {
            TAN_DIVERGED
        } else if b <= 480 {
            self.tan_q[480 - b]
        } else {
            -self.tan_q[b - 480]
        }
    }

    /// Scaled sine of angle unit `a`.
    pub fn sin_fp(&self, a: usize) -> (r: i32)
        requires
            self.wf(),
            a < FULL_TURN,
        ensures
            r as int == spec_sin_fp(self.sin_q@, a as int),
            -256 <= r <= 256,
    {
        let b = a % 1920;
        if b <= 480 {
            self.sin_q[b]
        } else if b <= 960 {
            self.sin_q[960 - b]
        } else if b <= 1440 {
            -self.sin_q[b - 960]
        } else {
            -self.sin_q[1920 - b]
        }
    }

    /// Scaled cosine of angle unit `a`.
    pub fn cos_fp(&self, a: usize) -> (r: i32)
        requires
            self.wf(),
            a < FULL_TURN,
        ensures
            r as int == spec_cos_fp(self.sin_q@, a as int),
            -256 <= r <= 256,
    {
        self.sin_fp((a + 480) % 1920)
    }
}

/// The tangent is periodic in a half turn and odd under reflection in it,
/// and so is the cotangent: a ray and its mirror image across the vertical
/// axis have exactly opposite slopes.
pub proof fn lemma_trig_mirror(tq: Seq<i32>, a: int)
    requires
        spec_tan_table_wf(tq),
        0 < a < 960,
    ensures
        a != 480 ==> spec_tan_fp(tq, 960 - a) == -spec_tan_fp(tq, a),
        spec_cot_fp(tq, 960 - a) == -spec_cot_fp(tq, a),
        spec_tan_fp(tq, a + 960) == spec_tan_fp(tq, a),
        spec_cot_fp(tq, a + 960) == spec_cot_fp(tq, a),
{
}


#[verifier::rlimit(80)]
fn fill_tan_0(v: &mut Vec<i32>)
    requires
        old(v)@.len() == 0,
    ensures
        final(v)@.len() == 60,
        forall|i: int| 0 <= i < 0 ==> final(v)@[i] == old(v)@[i],
        forall|i: int| 0 <= i < 60 ==> spec_tan_entry_ok(i, #[trigger] final(v)@[i]),
{
    v.push(0);
    v.push(1);
    v.push(2);
    v.push(3);
    v.push(3);
    v.push(4);
    v.push(5);
    v.push(6);
    v.push(7);
    v.push(8);
    v.push(8);
    v.push(9);
    v.push(10);
    v.push(11);
    v.push(12);
    v.push(13);
    v.push(13);
    v.push(14);
    v.push(15);
    v.push(16);
    v.push(17);
    v.push(18);
    v.push(18);
    v.push(19);
    v.push(20);
    v.push(21);
    v.push(22);
    v.push(23);
    v.push(24);
    v.push(24);
    v.push(25);
    v.push(26);
    v.push(27);
    v.push(28);
    v.push(29);
    v.push(29);
    v.push(30);
    v.push(31);
    v.push(32);
    v.push(33);
    v.push(34);
    v.push(35);
    v.push(35);
    v.push(36);
    v.push(37);
    v.push(38);
    v.push(39);
    v.push(40);
    v.push(41);
    v.push(41);
    v.push(42);
    v.push(43);
    v.push(44);
    v.push(45);
    v.push(46);
    v.push(47);
    v.push(47);
    v.push(48);
    v.push(49);
    v.push(50);
}

#[verifier::rlimit(80)]
fn fill_tan_1(v: &mut Vec<i32>)
    requires
        old(v)@.len() == 60,
    ensures
        final(v)@.len() == 120,
        forall|i: int| 0 <= i < 60 ==> final(v)@[i] == old(v)@[i],
        forall|i: int| 60 <= i < 120 ==> spec_tan_entry_ok(i, #[trigger] final(v)@[i]),
{
    v.push(51);
    v.push(52);
    v.push(53);
    v.push(54);
    v.push(54);
    v.push(55);
    v.push(56);
    v.push(57);
    v.push(58);
    v.push(59);
    v.push(60);
    v.push(61);
    v.push(61);
    v.push(62);
    v.push(63);
    v.push(64);
    v.push(65);
    v.push(66);
    v.push(67);
    v.push(68);
    v.push(69);
    v.push(69);
    v.push(70);
    v.push(71);
    v.push(72);
    v.push(73);
    v.push(74);
    v.push(75);
    v.push(76);
    v.push(77);
    v.push(78);
    v.push(79);
    v.push(79);
    v.push(80);
    v.push(81);
    v.push(82);
    v.push(83);
    v.push(84);
    v.push(85);
    v.push(86);
    v.push(87);
    v.push(88);
    v.push(89);
    v.push(90);
    v.push(91);
    v.push(92);
    v.push(93);
    v.push(93);
    v.push(94);
    v.push(95);
    v.push(96);
    v.push(97);
    v.push(98);
    v.push(99);
    v.push(100);
    v.push(101);
    v.push(102);
    v.push(103);
    v.push(104);
    v.push(105);
}

#[verifier::rlimit(80)]
fn fill_tan_2(v: &mut Vec<i32>)
    requires
        old(v)@.len() == 120,
    ensures
        final(v)@.len() == 180,
        forall|i: int| 0 <= i < 120 ==> final(v)@[i] == old(v)@[i],
        forall|i: int| 120 <= i < 180 ==> spec_tan_entry_ok(i, #[trigger] final(v)@[i]),
{
    v.push(106);
    v.push(107);
    v.push(108);
    v.push(109);
    v.push(110);
    v.push(111);
    v.push(112);
    v.push(113);
    v.push(114);
    v.push(115);
    v.push(116);
    v.push(117);
    v.push(118);
    v.push(119);
    v.push(120);
    v.push(121);
    v.push(122);
    v.push(123);
    v.push(124);
    v.push(125);
    v.push(126);
    v.push(127);
    v.push(128);
    v.push(129);
    v.push(130);
    v.push(131);
    v.push(133);
    v.push(134);
    v.push(135);
    v.push(136);
    v.push(137);
    v.push(138);
    v.push(139);
    v.push(140);
    v.push(141);
    v.push(142);
    v.push(143);
    v.push(144);
    v.push(146);
    v.push(147);
    v.push(148);
    v.push(149);
    v.push(150);
    v.push(151);
    v.push(152);
    v.push(153);
    v.push(155);
    v.push(156);
    v.push(157);
    v.push(158);
    v.push(159);
    v.push(160);
    v.push(162);
    v.push(163);
    v.push(164);
    v.push(165);
    v.push(166);
    v.push(167);
    v.push(169);
    v.push(170);
}

#[verifier::rlimit(80)]
fn fill_tan_3(v: &mut Vec<i32>)
    requires
        old(v)@.len() == 180,
    ensures
        final(v)@.len() == 240,
        forall|i: int| 0 <= i < 180 ==> final(v)@[i] == old(v)@[i],
        forall|i: int| 180 <= i < 240 ==> spec_tan_entry_ok(i, #[trigger] final(v)@[i]),
{
    v.push(171);
    v.push(172);
    v.push(173);
    v.push(175);
    v.push(176);
    v.push(177);
    v.push(178);
    v.push(180);
    v.push(181);
    v.push(182);
    v.push(183);
    v.push(185);
    v.push(186);
    v.push(187);
    v.push(189);
    v.push(190);
    v.push(191);
    v.push(192);
    v.push(194);
    v.push(195);
    v.push(196);
    v.push(198);
    v.push(199);
    v.push(200);
    v.push(202);
    v.push(203);
    v.push(205);
    v.push(206);
    v.push(207);
    v.push(209);
    v.push(210);
    v.push(211);
    v.push(213);
    v.push(214);
    v.push(216);
    v.push(217);
    v.push(219);
    v.push(220);
    v.push(222);
    v.push(223);
    v.push(225);
    v.push(226);
    v.push(227);
    v.push(229);
    v.push(231);
    v.push(232);
    v.push(234);
    v.push(235);
    v.push(237);
    v.push(238);
    v.push(240);
    v.push(241);
    v.push(243);
    v.push(245);
    v.push(246);
    v.push(248);
    v.push(249);
    v.push(251);
    v.push(253);
    v.push(254);
}

#[verifier::rlimit(80)]
fn fill_tan_4(v: &mut Vec<i32>)
    requires
        old(v)@.len() == 240,
    ensures
        final(v)@.len() == 300,
        forall|i: int| 0 <= i < 240 ==> final(v)@[i] == old(v)@[i],
        forall|i: int| 240 <= i < 300 ==> spec_tan_entry_ok(i, #[trigger] final(v)@[i]),
{
    v.push(256);
    v.push(258);
    v.push(259);
    v.push(261);
    v.push(263);
    v.push(265);
    v.push(266);
    v.push(268);
    v.push(270);
    v.push(272);
    v.push(273);
    v.push(275);
    v.push(277);
    v.push(279);
    v.push(281);
    v.push(282);
    v.push(284);
    v.push(286);
    v.push(288);
    v.push(290);
    v.push(292);
    v.push(294);
    v.push(296);
    v.push(298);
    v.push(300);
    v.push(302);
    v.push(304);
    v.push(306);
    v.push(308);
    v.push(310);
    v.push(312);
    v.push(314);
    v.push(316);
    v.push(318);
    v.push(320);
    v.push(323);
    v.push(325);
    v.push(327);
    v.push(329);
    v.push(331);
    v.push(334);
    v.push(336);
    v.push(338);
    v.push(340);
    v.push(343);
    v.push(345);
    v.push(348);
    v.push(350);
    v.push(352);
    v.push(355);
    v.push(357);
    v.push(360);
    v.push(362);
    v.push(365);
    v.push(367);
    v.push(370);
    v.push(372);
    v.push(375);
    v.push(378);
    v.push(380);
}

#[verifier::rlimit(80)]
fn fill_tan_5(v: &mut Vec<i32>)
    requires
        old(v)@.len() == 300,
    ensures
        final(v)@.len() == 360,
        forall|i: int| 0 <= i < 300 ==> final(v)@[i] == old(v)@[i],
        forall|i: int| 300 <= i < 360 ==> spec_tan_entry_ok(i, #[trigger] final(v)@[i]),
{
    v.push(383);
    v.push(386);
    v.push(389);
    v.push(391);
    v.push(394);
    v.push(397);
    v.push(400);
    v.push(403);
    v.push(406);
    v.push(409);
    v.push(412);
    v.push(415);
    v.push(418);
    v.push(421);
    v.push(424);
    v.push(427);
    v.push(430);
    v.push(434);
    v.push(437);
    v.push(440);
    v.push(443);
    v.push(447);
    v.push(450);
    v.push(454);
    v.push(457);
    v.push(461);
    v.push(464);
    v.push(468);
    v.push(471);
    v.push(475);
    v.push(479);
    v.push(483);
    v.push(487);
    v.push(490);
    v.push(494);
    v.push(498);
    v.push(502);
    v.push(507);
    v.push(511);
    v.push(515);
    v.push(519);
    v.push(523);
    v.push(528);
    v.push(532);
    v.push(537);
    v.push(541);
    v.push(546);
    v.push(551);
    v.push(555);
    v.push(560);
    v.push(565);
    v.push(570);
    v.push(575);
    v.push(580);
    v.push(585);
    v.push(591);
    v.push(596);
    v.push(601);
    v.push(607);
    v.push(612);
}

#[verifier::rlimit(80)]
fn fill_tan_6(v: &mut Vec<i32>)
    requires
        old(v)@.len() == 360,
    ensures
        final(v)@.len() == 420,
        forall|i: int| 0 <= i < 360 ==> final(v)@[i] == old(v)@[i],
        forall|i: int| 360 <= i < 420 ==> spec_tan_entry_ok(i, #[trigger] final(v)@[i]),
{
    v.push(618);
    v.push(624);
    v.push(630);
    v.push(636);
    v.push(642);
    v.push(648);
    v.push(654);
    v.push(660);
    v.push(667);
    v.push(673);
    v.push(680);
    v.push(687);
    v.push(694);
    v.push(701);
    v.push(708);
    v.push(715);
    v.push(723);
    v.push(731);
    v.push(738);
    v.push(746);
    v.push(754);
    v.push(762);
    v.push(771);
    v.push(779);
    v.push(788);
    v.push(797);
    v.push(806);
    v.push(815);
    v.push(824);
    v.push(834);
    v.push(844);
    v.push(854);
    v.push(864);
    v.push(875);
    v.push(885);
    v.push(896);
    v.push(908);
    v.push(919);
    v.push(931);
    v.push(943);
    v.push(955);
    v.push(968);
    v.push(981);
    v.push(994);
    v.push(1008);
    v.push(1022);
    v.push(1036);
    v.push(1051);
    v.push(1066);
    v.push(1082);
    v.push(1098);
    v.push(1114);
    v.push(1131);
    v.push(1149);
    v.push(1167);
    v.push(1185);
    v.push(1204);
    v.push(1224);
    v.push(1244);
    v.push(1265);
}

#[verifier::rlimit(80)]
fn fill_tan_7(v: &mut Vec<i32>)
    requires
        old(v)@.len() == 420,
    ensures
        final(v)@.len() == 481,
        forall|i: int| 0 <= i < 420 ==> final(v)@[i] == old(v)@[i],
        forall|i: int| 420 <= i < 481 ==> spec_tan_entry_ok(i, #[trigger] final(v)@[i]),
{
    v.push(1287);
    v.push(1309);
    v.push(1333);
    v.push(1356);
    v.push(1381);
    v.push(1407);
    v.push(1434);
    v.push(1461);
    v.push(1490);
    v.push(1520);
    v.push(1551);
    v.push(1583);
    v.push(1616);
    v.push(1651);
    v.push(1688);
    v.push(1726);
    v.push(1766);
    v.push(1807);
    v.push(1851);
    v.push(1897);
    v.push(1945);
    v.push(1995);
    v.push(2048);
    v.push(2104);
    v.push(2163);
    v.push(2225);
    v.push(2291);
    v.push(2361);
    v.push(2436);
    v.push(2515);
    v.push(2599);
    v.push(2689);
    v.push(2786);
    v.push(2890);
    v.push(3001);
    v.push(3122);
    v.push(3253);
    v.push(3395);
    v.push(3550);
    v.push(3719);
    v.push(3906);
    v.push(4112);
    v.push(4341);
    v.push(4597);
    v.push(4885);
    v.push(5211);
    v.push(5584);
    v.push(6014);
    v.push(6516);
    v.push(7109);
    v.push(7820);
    v.push(8689);
    v.push(9776);
    v.push(11173);
    v.push(13036);
    v.push(15644);
    v.push(19556);
    v.push(26075);
    v.push(39113);
    v.push(78228);
    v.push(131072);
}

#[verifier::rlimit(80)]
fn fill_sin_0(v: &mut Vec<i32>)
    requires
        old(v)@.len() == 0,
    ensures
        final(v)@.len() == 60,
        forall|i: int| 0 <= i < 0 ==> final(v)@[i] == old(v)@[i],
        forall|i: int| 0 <= i < 60 ==> spec_sin_entry_ok(i, #[trigger] final(v)@[i]),
{
    v.push(0);
    v.push(1);
    v.push(2);
    v.push(3);
    v.push(3);
    v.push(4);
    v.push(5);
    v.push(6);
    v.push(7);
    v.push(8);
    v.push(8);
    v.push(9);
    v.push(10);
    v.push(11);
    v.push(12);
    v.push(13);
    v.push(13);
    v.push(14);
    v.push(15);
    v.push(16);
    v.push(17);
    v.push(18);
    v.push(18);
    v.push(19);
    v.push(20);
    v.push(21);
    v.push(22);
    v.push(23);
    v.push(23);
    v.push(24);
    v.push(25);
    v.push(26);
    v.push(27);
    v.push(28);
    v.push(28);
    v.push(29);
    v.push(30);
    v.push(31);
    v.push(32);
    v.push(33);
    v.push(33);
    v.push(34);
    v.push(35);
    v.push(36);
    v.push(37);
    v.push(38);
    v.push(38);
    v.push(39);
    v.push(40);
    v.push(41);
    v.push(42);
    v.push(43);
    v.push(43);
    v.push(44);
    v.push(45);
    v.push(46);
    v.push(47);
    v.push(47);
    v.push(48);
    v.push(49);
}

#[verifier::rlimit(80)]
fn fill_sin_1(v: &mut Vec<i32>)
    requires
        old(v)@.len() == 60,
    ensures
        final(v)@.len() == 120,
        forall|i: int| 0 <= i < 60 ==> final(v)@[i] == old(v)@[i],
        forall|i: int| 60 <= i < 120 ==> spec_sin_entry_ok(i, #[trigger] final(v)@[i]),
{
    v.push(50);
    v.push(51);
    v.push(52);
    v.push(52);
    v.push(53);
    v.push(54);
    v.push(55);
    v.push(56);
    v.push(56);
    v.push(57);
    v.push(58);
    v.push(59);
    v.push(60);
    v.push(61);
    v.push(61);
    v.push(62);
    v.push(63);
    v.push(64);
    v.push(65);
    v.push(65);
    v.push(66);
    v.push(67);
    v.push(68);
    v.push(69);
    v.push(69);
    v.push(70);
    v.push(71);
    v.push(72);
    v.push(73);
    v.push(74);
    v.push(74);
    v.push(75);
    v.push(76);
    v.push(77);
    v.push(78);
    v.push(78);
    v.push(79);
    v.push(80);
    v.push(81);
    v.push(81);
    v.push(82);
    v.push(83);
    v.push(84);
    v.push(85);
    v.push(85);
    v.push(86);
    v.push(87);
    v.push(88);
    v.push(89);
    v.push(89);
    v.push(90);
    v.push(91);
    v.push(92);
    v.push(93);
    v.push(93);
    v.push(94);
    v.push(95);
    v.push(96);
    v.push(96);
    v.push(97);
}

#[verifier::rlimit(80)]
fn fill_sin_2(v: &mut Vec<i32>)
    requires
        old(v)@.len() == 120,
    ensures
        final(v)@.len() == 180,
        forall|i: int| 0 <= i < 120 ==> final(v)@[i] == old(v)@[i],
        forall|i: int| 120 <= i < 180 ==> spec_sin_entry_ok(i, #[trigger] final(v)@[i]),
{
    v.push(98);
    v.push(99);
    v.push(100);
    v.push(100);
    v.push(101);
    v.push(102);
    v.push(103);
    v.push(103);
    v.push(104);
    v.push(105);
    v.push(106);
    v.push(106);
    v.push(107);
    v.push(108);
    v.push(109);
    v.push(109);
    v.push(110);
    v.push(111);
    v.push(112);
    v.push(112);
    v.push(113);
    v.push(114);
    v.push(115);
    v.push(115);
    v.push(116);
    v.push(117);
    v.push(118);
    v.push(118);
    v.push(119);
    v.push(120);
    v.push(121);
    v.push(121);
    v.push(122);
    v.push(123);
    v.push(124);
    v.push(124);
    v.push(125);
    v.push(126);
    v.push(127);
    v.push(127);
    v.push(128);
    v.push(129);
    v.push(129);
    v.push(130);
    v.push(131);
    v.push(132);
    v.push(132);
    v.push(133);
    v.push(134);
    v.push(134);
    v.push(135);
    v.push(136);
    v.push(137);
    v.push(137);
    v.push(138);
    v.push(139);
    v.push(139);
    v.push(140);
    v.push(141);
    v.push(142);
}

#[verifier::rlimit(80)]
fn fill_sin_3(v: &mut Vec<i32>)
    requires
        old(v)@.len() == 180,
    ensures
        final(v)@.len() == 240,
        forall|i: int| 0 <= i < 180 ==> final(v)@[i] == old(v)@[i],
        forall|i: int| 180 <= i < 240 ==> spec_sin_entry_ok(i, #[trigger] final(v)@[i]),
{
    v.push(142);
    v.push(143);
    v.push(144);
    v.push(144);
    v.push(145);
    v.push(146);
    v.push(146);
    v.push(147);
    v.push(148);
    v.push(148);
    v.push(149);
    v.push(150);
    v.push(150);
    v.push(151);
    v.push(152);
    v.push(152);
    v.push(153);
    v.push(154);
    v.push(155);
    v.push(155);
    v.push(156);
    v.push(157);
    v.push(157);
    v.push(158);
    v.push(158);
    v.push(159);
    v.push(160);
    v.push(160);
    v.push(161);
    v.push(162);
    v.push(162);
    v.push(163);
    v.push(164);
    v.push(164);
    v.push(165);
    v.push(166);
    v.push(166);
    v.push(167);
    v.push(168);
    v.push(168);
    v.push(169);
    v.push(169);
    v.push(170);
    v.push(171);
    v.push(171);
    v.push(172);
    v.push(173);
    v.push(173);
    v.push(174);
    v.push(174);
    v.push(175);
    v.push(176);
    v.push(176);
    v.push(177);
    v.push(177);
    v.push(178);
    v.push(179);
    v.push(179);
    v.push(180);
    v.push(180);
}

#[verifier::rlimit(80)]
fn fill_sin_4(v: &mut Vec<i32>)
    requires
        old(v)@.len() == 240,
    ensures
        final(v)@.len() == 300,
        forall|i: int| 0 <= i < 240 ==> final(v)@[i] == old(v)@[i],
        forall|i: int| 240 <= i < 300 ==> spec_sin_entry_ok(i, #[trigger] final(v)@[i]),
{
    v.push(181);
    v.push(182);
    v.push(182);
    v.push(183);
    v.push(183);
    v.push(184);
    v.push(185);
    v.push(185);
    v.push(186);
    v.push(186);
    v.push(187);
    v.push(187);
    v.push(188);
    v.push(189);
    v.push(189);
    v.push(190);
    v.push(190);
    v.push(191);
    v.push(191);
    v.push(192);
    v.push(192);
    v.push(193);
    v.push(194);
    v.push(194);
    v.push(195);
    v.push(195);
    v.push(196);
    v.push(196);
    v.push(197);
    v.push(197);
    v.push(198);
    v.push(198);
    v.push(199);
    v.push(199);
    v.push(200);
    v.push(201);
    v.push(201);
    v.push(202);
    v.push(202);
    v.push(203);
    v.push(203);
    v.push(204);
    v.push(204);
    v.push(205);
    v.push(205);
    v.push(206);
    v.push(206);
    v.push(207);
    v.push(207);
    v.push(208);
    v.push(208);
    v.push(209);
    v.push(209);
    v.push(210);
    v.push(210);
    v.push(211);
    v.push(211);
    v.push(211);
    v.push(212);
    v.push(212);
}

#[verifier::rlimit(80)]
fn fill_sin_5(v: &mut Vec<i32>)
    requires
        old(v)@.len() == 300,
    ensures
        final(v)@.len() == 360,
        forall|i: int| 0 <= i < 300 ==> final(v)@[i] == old(v)@[i],
        forall|i: int| 300 <= i < 360 ==> spec_sin_entry_ok(i, #[trigger] final(v)@[i]),
{
    v.push(213);
    v.push(213);
    v.push(214);
    v.push(214);
    v.push(215);
    v.push(215);
    v.push(216);
    v.push(216);
    v.push(217);
    v.push(217);
    v.push(217);
    v.push(218);
    v.push(218);
    v.push(219);
    v.push(219);
    v.push(220);
    v.push(220);
    v.push(220);
    v.push(221);
    v.push(221);
    v.push(222);
    v.push(222);
    v.push(223);
    v.push(223);
    v.push(223);
    v.push(224);
    v.push(224);
    v.push(225);
    v.push(225);
    v.push(225);
    v.push(226);
    v.push(226);
    v.push(227);
    v.push(227);
    v.push(227);
    v.push(228);
    v.push(228);
    v.push(228);
    v.push(229);
    v.push(229);
    v.push(230);
    v.push(230);
    v.push(230);
    v.push(231);
    v.push(231);
    v.push(231);
    v.push(232);
    v.push(232);
    v.push(232);
    v.push(233);
    v.push(233);
    v.push(234);
    v.push(234);
    v.push(234);
    v.push(235);
    v.push(235);
    v.push(235);
    v.push(236);
    v.push(236);
    v.push(236);
}

#[verifier::rlimit(80)]
fn fill_sin_6(v: &mut Vec<i32>)
    requires
        old(v)@.len() == 360,
    ensures
        final(v)@.len() == 420,
        forall|i: int| 0 <= i < 360 ==> final(v)@[i] == old(v)@[i],
        forall|i: int| 360 <= i < 420 ==> spec_sin_entry_ok(i, #[trigger] final(v)@[i]),
{
    v.push(237);
    v.push(237);
    v.push(237);
    v.push(237);
    v.push(238);
    v.push(238);
    v.push(238);
    v.push(239);
    v.push(239);
    v.push(239);
    v.push(240);
    v.push(240);
    v.push(240);
    v.push(240);
    v.push(241);
    v.push(241);
    v.push(241);
    v.push(242);
    v.push(242);
    v.push(242);
    v.push(242);
    v.push(243);
    v.push(243);
    v.push(243);
    v.push(243);
    v.push(244);
    v.push(244);
    v.push(244);
    v.push(244);
    v.push(245);
    v.push(245);
    v.push(245);
    v.push(245);
    v.push(246);
    v.push(246);
    v.push(246);
    v.push(246);
    v.push(247);
    v.push(247);
    v.push(247);
    v.push(247);
    v.push(247);
    v.push(248);
    v.push(248);
    v.push(248);
    v.push(248);
    v.push(249);
    v.push(249);
    v.push(249);
    v.push(249);
    v.push(249);
    v.push(250);
    v.push(250);
    v.push(250);
    v.push(250);
    v.push(250);
    v.push(250);
    v.push(251);
    v.push(251);
    v.push(251);
}

#[verifier::rlimit(80)]
fn fill_sin_7(v: &mut Vec<i32>)
    requires
        old(v)@.len() == 420,
    ensures
        final(v)@.len() == 481,
        forall|i: int| 0 <= i < 420 ==> final(v)@[i] == old(v)@[i],
        forall|i: int| 420 <= i < 481 ==> spec_sin_entry_ok(i, #[trigger] final(v)@[i]),
{
    v.push(251);
    v.push(251);
    v.push(251);
    v.push(252);
    v.push(252);
    v.push(252);
    v.push(252);
    v.push(252);
    v.push(252);
    v.push(252);
    v.push(253);
    v.push(253);
    v.push(253);
    v.push(253);
    v.push(253);
    v.push(253);
    v.push(253);
    v.push(253);
    v.push(254);
    v.push(254);
    v.push(254);
    v.push(254);
    v.push(254);
    v.push(254);
    v.push(254);
    v.push(254);
    v.push(254);
    v.push(255);
    v.push(255);
    v.push(255);
    v.push(255);
    v.push(255);
    v.push(255);
    v.push(255);
    v.push(255);
    v.push(255);
    v.push(255);
    v.push(255);
    v.push(255);
    v.push(255);
    v.push(255);
    v.push(256);
    v.push(256);
    v.push(256);
    v.push(256);
    v.push(256);
    v.push(256);
    v.push(256);
    v.push(256);
    v.push(256);
    v.push(256);
    v.push(256);
    v.push(256);
    v.push(256);
    v.push(256);
    v.push(256);
    v.push(256);
    v.push(256);
    v.push(256);
    v.push(256);
    v.push(256);
}

/// The tangent quarter table: entry `i` is `round(256 * tan(i * 3/16 deg))`
/// for `i` below 480, and the divergence stand-in at 480.
fn tan_quarter_table() -> (v: Vec<i32>)
    ensures
        spec_tan_table_wf(v@),
{
    let mut v: Vec<i32> = Vec::new();

    fill_tan_0(&mut v);
    fill_tan_1(&mut v);
    fill_tan_2(&mut v);
    fill_tan_3(&mut v);
    fill_tan_4(&mut v);
    fill_tan_5(&mut v);
    fill_tan_6(&mut v);
    fill_tan_7(&mut v);
    v
}

/// The sine quarter table: entry `i` is `round(256 * sin(i * 3/16 deg))`.
fn sin_quarter_table() -> (v: Vec<i32>)
    ensures
        spec_sin_table_wf(v@),
{
    let mut v: Vec<i32> = Vec::new();

    fill_sin_0(&mut v);
    fill_sin_1(&mut v);
    fill_sin_2(&mut v);
    fill_sin_3(&mut v);
    fill_sin_4(&mut v);
    fill_sin_5(&mut v);
    fill_sin_6(&mut v);
    fill_sin_7(&mut v);
    v
}

} // verus!
