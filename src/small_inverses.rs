//! Every byte sum of a nonzero word, `1..=1020`, has an inverse in the trace
//! field, and the inverse search finds it. Each sum `s` comes with the `k`
//! below `s` for which `s` divides `k * p + 1`.
use vstd::prelude::*;
use crate::chip::inverse_search;
use crate::columns::FIELD_P;

verus! {

/// The search finds an inverse by `k` at the latest where `s` divides
/// `k * p + 1`.
proof fn lemma_search_finds(s: nat, from: nat, k: nat)
    requires
        0 < s < FIELD_P as nat,
        from <= k < s,
        (k * (FIELD_P as nat) + 1) % s == 0,
    ensures
        inverse_search(s, from) != 0,
    decreases k - from,
{
    let n = from * (FIELD_P as nat) + 1;
    if n % s == 0 {
        if from == 0 {
            assert(s == 1) by (nonlinear_arith)
                requires
                    n == 1,
                    n % s == 0,
                    s > 0,
            ;
        } else {
            assert(n / s >= 1) by (nonlinear_arith)
                requires
                    n == from * (FIELD_P as nat) + 1,
                    from >= 1,
                    s < FIELD_P as nat,
                    s > 0,
            ;
        }
    } else {
        lemma_search_finds(s, from + 1, k);
    }
}

proof fn lemma_sums_1_to_100(s: nat)
    requires
        1 <= s <= 100,
    ensures
        inverse_search(s, 0) != 0,
{
    if s == 1 {
        lemma_search_finds(1, 0, 0);
    } else if s == 2 {
        lemma_search_finds(2, 0, 1);
    } else if s == 3 {
        lemma_search_finds(3, 0, 2);
    } else if s == 4 {
        lemma_search_finds(4, 0, 3);
    } else if s == 5 {
        lemma_search_finds(5, 0, 4);
    } else if s == 6 {
        lemma_search_finds(6, 0, 5);
    } else if s == 7 {
        lemma_search_finds(7, 0, 3);
    } else if s == 8 {
        lemma_search_finds(8, 0, 7);
    } else if s == 9 {
        lemma_search_finds(9, 0, 2);
    } else if s == 10 {
        lemma_search_finds(10, 0, 9);
    } else if s == 11 {
        lemma_search_finds(11, 0, 3);
    } else if s == 12 {
        lemma_search_finds(12, 0, 11);
    } else if s == 13 {
        lemma_search_finds(13, 0, 3);
    } else if s == 14 {
        lemma_search_finds(14, 0, 3);
    } else if s == 15 {
        lemma_search_finds(15, 0, 14);
    } else if s == 16 {
        lemma_search_finds(16, 0, 15);
    } else if s == 17 {
        lemma_search_finds(17, 0, 8);
    } else if s == 18 {
        lemma_search_finds(18, 0, 11);
    } else if s == 19 {
        lemma_search_finds(19, 0, 15);
    } else if s == 20 {
        lemma_search_finds(20, 0, 19);
    } else if s == 21 {
        lemma_search_finds(21, 0, 17);
    } else if s == 22 {
        lemma_search_finds(22, 0, 3);
    } else if s == 23 {
        lemma_search_finds(23, 0, 12);
    } else if s == 24 {
        lemma_search_finds(24, 0, 23);
    } else if s == 25 {
        lemma_search_finds(25, 0, 19);
    } else if s == 26 {
        lemma_search_finds(26, 0, 3);
    } else if s == 27 {
        lemma_search_finds(27, 0, 2);
    } else if s == 28 {
        lemma_search_finds(28, 0, 3);
    } else if s == 29 {
        lemma_search_finds(29, 0, 5);
    } else if s == 30 {
        lemma_search_finds(30, 0, 29);
    } else if s == 31 {
        lemma_search_finds(31, 0, 1);
    } else if s == 32 {
        lemma_search_finds(32, 0, 31);
    } else if s == 33 {
        lemma_search_finds(33, 0, 14);
    } else if s == 34 {
        lemma_search_finds(34, 0, 25);
    } else if s == 35 {
        lemma_search_finds(35, 0, 24);
    } else if s == 36 {
        lemma_search_finds(36, 0, 11);
    } else if s == 37 {
        lemma_search_finds(37, 0, 13);
    } else if s == 38 {
        lemma_search_finds(38, 0, 15);
    } else if s == 39 {
        lemma_search_finds(39, 0, 29);
    } else if s == 40 {
        lemma_search_finds(40, 0, 39);
    } else if s == 41 {
        lemma_search_finds(41, 0, 7);
    } else if s == 42 {
        lemma_search_finds(42, 0, 17);
    } else if s == 43 {
        lemma_search_finds(43, 0, 10);
    } else if s == 44 {
        lemma_search_finds(44, 0, 3);
    } else if s == 45 {
        lemma_search_finds(45, 0, 29);
    } else if s == 46 {
        lemma_search_finds(46, 0, 35);
    } else if s == 47 {
        lemma_search_finds(47, 0, 39);
    } else if s == 48 {
        lemma_search_finds(48, 0, 47);
    } else if s == 49 {
        lemma_search_finds(49, 0, 31);
    } else if s == 50 {
        lemma_search_finds(50, 0, 19);
    } else if s == 51 {
        lemma_search_finds(51, 0, 8);
    } else if s == 52 {
        lemma_search_finds(52, 0, 3);
    } else if s == 53 {
        lemma_search_finds(53, 0, 11);
    } else if s == 54 {
        lemma_search_finds(54, 0, 29);
    } else if s == 55 {
        lemma_search_finds(55, 0, 14);
    } else if s == 56 {
        lemma_search_finds(56, 0, 31);
    } else if s == 57 {
        lemma_search_finds(57, 0, 53);
    } else if s == 58 {
        lemma_search_finds(58, 0, 5);
    } else if s == 59 {
        lemma_search_finds(59, 0, 54);
    } else if s == 60 {
        lemma_search_finds(60, 0, 59);
    } else if s == 61 {
        lemma_search_finds(61, 0, 36);
    } else if s == 62 {
        lemma_search_finds(62, 0, 1);
    } else if s == 63 {
        lemma_search_finds(63, 0, 38);
    } else if s == 64 {
        lemma_search_finds(64, 0, 63);
    } else if s == 65 {
        lemma_search_finds(65, 0, 29);
    } else if s == 66 {
        lemma_search_finds(66, 0, 47);
    } else if s == 67 {
        lemma_search_finds(67, 0, 11);
    } else if s == 68 {
        lemma_search_finds(68, 0, 59);
    } else if s == 69 {
        lemma_search_finds(69, 0, 35);
    } else if s == 70 {
        lemma_search_finds(70, 0, 59);
    } else if s == 71 {
        lemma_search_finds(71, 0, 47);
    } else if s == 72 {
        lemma_search_finds(72, 0, 47);
    } else if s == 73 {
        lemma_search_finds(73, 0, 41);
    } else if s == 74 {
        lemma_search_finds(74, 0, 13);
    } else if s == 75 {
        lemma_search_finds(75, 0, 44);
    } else if s == 76 {
        lemma_search_finds(76, 0, 15);
    } else if s == 77 {
        lemma_search_finds(77, 0, 3);
    } else if s == 78 {
        lemma_search_finds(78, 0, 29);
    } else if s == 79 {
        lemma_search_finds(79, 0, 4);
    } else if s == 80 {
        lemma_search_finds(80, 0, 79);
    } else if s == 81 {
        lemma_search_finds(81, 0, 29);
    } else if s == 82 {
        lemma_search_finds(82, 0, 7);
    } else if s == 83 {
        lemma_search_finds(83, 0, 12);
    } else if s == 84 {
        lemma_search_finds(84, 0, 59);
    } else if s == 85 {
        lemma_search_finds(85, 0, 59);
    } else if s == 86 {
        lemma_search_finds(86, 0, 53);
    } else if s == 87 {
        lemma_search_finds(87, 0, 5);
    } else if s == 88 {
        lemma_search_finds(88, 0, 47);
    } else if s == 89 {
        lemma_search_finds(89, 0, 42);
    } else if s == 90 {
        lemma_search_finds(90, 0, 29);
    } else if s == 91 {
        lemma_search_finds(91, 0, 3);
    } else if s == 92 {
        lemma_search_finds(92, 0, 35);
    } else if s == 93 {
        lemma_search_finds(93, 0, 32);
    } else if s == 94 {
        lemma_search_finds(94, 0, 39);
    } else if s == 95 {
        lemma_search_finds(95, 0, 34);
    } else if s == 96 {
        lemma_search_finds(96, 0, 95);
    } else if s == 97 {
        lemma_search_finds(97, 0, 75);
    } else if s == 98 {
        lemma_search_finds(98, 0, 31);
    } else if s == 99 {
        lemma_search_finds(99, 0, 47);
    } else if s == 100 {
        lemma_search_finds(100, 0, 19);
    }
}

proof fn lemma_sums_101_to_200(s: nat)
    requires
        101 <= s <= 200,
    ensures
        inverse_search(s, 0) != 0,
{
    if s == 101 {
        lemma_search_finds(101, 0, 81);
    } else if s == 102 {
        lemma_search_finds(102, 0, 59);
    } else if s == 103 {
        lemma_search_finds(103, 0, 90);
    } else if s == 104 {
        lemma_search_finds(104, 0, 55);
    } else if s == 105 {
        lemma_search_finds(105, 0, 59);
    } else if s == 106 {
        lemma_search_finds(106, 0, 11);
    } else if s == 107 {
        lemma_search_finds(107, 0, 76);
    } else if s == 108 {
        lemma_search_finds(108, 0, 83);
    } else if s == 109 {
        lemma_search_finds(109, 0, 89);
    } else if s == 110 {
        lemma_search_finds(110, 0, 69);
    } else if s == 111 {
        lemma_search_finds(111, 0, 50);
    } else if s == 112 {
        lemma_search_finds(112, 0, 31);
    } else if s == 113 {
        lemma_search_finds(113, 0, 73);
    } else if s == 114 {
        lemma_search_finds(114, 0, 53);
    } else if s == 115 {
        lemma_search_finds(115, 0, 104);
    } else if s == 116 {
        lemma_search_finds(116, 0, 63);
    } else if s == 117 {
        lemma_search_finds(117, 0, 29);
    } else if s == 118 {
        lemma_search_finds(118, 0, 113);
    } else if s == 119 {
        lemma_search_finds(119, 0, 59);
    } else if s == 120 {
        lemma_search_finds(120, 0, 119);
    } else if s == 121 {
        lemma_search_finds(121, 0, 3);
    } else if s == 122 {
        lemma_search_finds(122, 0, 97);
    } else if s == 123 {
        lemma_search_finds(123, 0, 89);
    } else if s == 124 {
        lemma_search_finds(124, 0, 63);
    } else if s == 125 {
        lemma_search_finds(125, 0, 19);
    } else if s == 126 {
        lemma_search_finds(126, 0, 101);
    } else if s == 127 {
        lemma_search_finds(127, 0, 97);
    } else if s == 128 {
        lemma_search_finds(128, 0, 127);
    } else if s == 129 {
        lemma_search_finds(129, 0, 53);
    } else if s == 130 {
        lemma_search_finds(130, 0, 29);
    } else if s == 131 {
        lemma_search_finds(131, 0, 62);
    } else if s == 132 {
        lemma_search_finds(132, 0, 47);
    } else if s == 133 {
        lemma_search_finds(133, 0, 129);
    } else if s == 134 {
        lemma_search_finds(134, 0, 11);
    } else if s == 135 {
        lemma_search_finds(135, 0, 29);
    } else if s == 136 {
        lemma_search_finds(136, 0, 127);
    } else if s == 137 {
        lemma_search_finds(137, 0, 51);
    } else if s == 138 {
        lemma_search_finds(138, 0, 35);
    } else if s == 139 {
        lemma_search_finds(139, 0, 47);
    } else if s == 140 {
        lemma_search_finds(140, 0, 59);
    } else if s == 141 {
        lemma_search_finds(141, 0, 86);
    } else if s == 142 {
        lemma_search_finds(142, 0, 47);
    } else if s == 143 {
        lemma_search_finds(143, 0, 3);
    } else if s == 144 {
        lemma_search_finds(144, 0, 47);
    } else if s == 145 {
        lemma_search_finds(145, 0, 34);
    } else if s == 146 {
        lemma_search_finds(146, 0, 41);
    } else if s == 147 {
        lemma_search_finds(147, 0, 80);
    } else if s == 148 {
        lemma_search_finds(148, 0, 87);
    } else if s == 149 {
        lemma_search_finds(149, 0, 138);
    } else if s == 150 {
        lemma_search_finds(150, 0, 119);
    } else if s == 151 {
        lemma_search_finds(151, 0, 85);
    } else if s == 152 {
        lemma_search_finds(152, 0, 15);
    } else if s == 153 {
        lemma_search_finds(153, 0, 110);
    } else if s == 154 {
        lemma_search_finds(154, 0, 3);
    } else if s == 155 {
        lemma_search_finds(155, 0, 94);
    } else if s == 156 {
        lemma_search_finds(156, 0, 107);
    } else if s == 157 {
        lemma_search_finds(157, 0, 65);
    } else if s == 158 {
        lemma_search_finds(158, 0, 83);
    } else if s == 159 {
        lemma_search_finds(159, 0, 11);
    } else if s == 160 {
        lemma_search_finds(160, 0, 159);
    } else if s == 161 {
        lemma_search_finds(161, 0, 150);
    } else if s == 162 {
        lemma_search_finds(162, 0, 29);
    } else if s == 163 {
        lemma_search_finds(163, 0, 160);
    } else if s == 164 {
        lemma_search_finds(164, 0, 7);
    } else if s == 165 {
        lemma_search_finds(165, 0, 14);
    } else if s == 166 {
        lemma_search_finds(166, 0, 95);
    } else if s == 167 {
        lemma_search_finds(167, 0, 79);
    } else if s == 168 {
        lemma_search_finds(168, 0, 143);
    } else if s == 169 {
        lemma_search_finds(169, 0, 159);
    } else if s == 170 {
        lemma_search_finds(170, 0, 59);
    } else if s == 171 {
        lemma_search_finds(171, 0, 110);
    } else if s == 172 {
        lemma_search_finds(172, 0, 139);
    } else if s == 173 {
        lemma_search_finds(173, 0, 94);
    } else if s == 174 {
        lemma_search_finds(174, 0, 5);
    } else if s == 175 {
        lemma_search_finds(175, 0, 94);
    } else if s == 176 {
        lemma_search_finds(176, 0, 47);
    } else if s == 177 {
        lemma_search_finds(177, 0, 113);
    } else if s == 178 {
        lemma_search_finds(178, 0, 131);
    } else if s == 179 {
        lemma_search_finds(179, 0, 54);
    } else if s == 180 {
        lemma_search_finds(180, 0, 119);
    } else if s == 181 {
        lemma_search_finds(181, 0, 152);
    } else if s == 182 {
        lemma_search_finds(182, 0, 3);
    } else if s == 183 {
        lemma_search_finds(183, 0, 158);
    } else if s == 184 {
        lemma_search_finds(184, 0, 127);
    } else if s == 185 {
        lemma_search_finds(185, 0, 124);
    } else if s == 186 {
        lemma_search_finds(186, 0, 125);
    } else if s == 187 {
        lemma_search_finds(187, 0, 25);
    } else if s == 188 {
        lemma_search_finds(188, 0, 39);
    } else if s == 189 {
        lemma_search_finds(189, 0, 164);
    } else if s == 190 {
        lemma_search_finds(190, 0, 129);
    } else if s == 191 {
        lemma_search_finds(191, 0, 11);
    } else if s == 192 {
        lemma_search_finds(192, 0, 191);
    } else if s == 193 {
        lemma_search_finds(193, 0, 14);
    } else if s == 194 {
        lemma_search_finds(194, 0, 75);
    } else if s == 195 {
        lemma_search_finds(195, 0, 29);
    } else if s == 196 {
        lemma_search_finds(196, 0, 31);
    } else if s == 197 {
        lemma_search_finds(197, 0, 169);
    } else if s == 198 {
        lemma_search_finds(198, 0, 47);
    } else if s == 199 {
        lemma_search_finds(199, 0, 108);
    } else if s == 200 {
        lemma_search_finds(200, 0, 119);
    }
}

proof fn lemma_sums_201_to_300(s: nat)
    requires
        201 <= s <= 300,
    ensures
        inverse_search(s, 0) != 0,
{
    if s == 201 {
        lemma_search_finds(201, 0, 11);
    } else if s == 202 {
        lemma_search_finds(202, 0, 81);
    } else if s == 203 {
        lemma_search_finds(203, 0, 150);
    } else if s == 204 {
        lemma_search_finds(204, 0, 59);
    } else if s == 205 {
        lemma_search_finds(205, 0, 89);
    } else if s == 206 {
        lemma_search_finds(206, 0, 193);
    } else if s == 207 {
        lemma_search_finds(207, 0, 173);
    } else if s == 208 {
        lemma_search_finds(208, 0, 159);
    } else if s == 209 {
        lemma_search_finds(209, 0, 91);
    } else if s == 210 {
        lemma_search_finds(210, 0, 59);
    } else if s == 211 {
        lemma_search_finds(211, 0, 77);
    } else if s == 212 {
        lemma_search_finds(212, 0, 11);
    } else if s == 213 {
        lemma_search_finds(213, 0, 47);
    } else if s == 214 {
        lemma_search_finds(214, 0, 183);
    } else if s == 215 {
        lemma_search_finds(215, 0, 139);
    } else if s == 216 {
        lemma_search_finds(216, 0, 191);
    } else if s == 217 {
        lemma_search_finds(217, 0, 94);
    } else if s == 218 {
        lemma_search_finds(218, 0, 89);
    } else if s == 219 {
        lemma_search_finds(219, 0, 41);
    } else if s == 220 {
        lemma_search_finds(220, 0, 179);
    } else if s == 221 {
        lemma_search_finds(221, 0, 42);
    } else if s == 222 {
        lemma_search_finds(222, 0, 161);
    } else if s == 223 {
        lemma_search_finds(223, 0, 213);
    } else if s == 224 {
        lemma_search_finds(224, 0, 31);
    } else if s == 225 {
        lemma_search_finds(225, 0, 119);
    } else if s == 226 {
        lemma_search_finds(226, 0, 73);
    } else if s == 227 {
        lemma_search_finds(227, 0, 53);
    } else if s == 228 {
        lemma_search_finds(228, 0, 167);
    } else if s == 229 {
        lemma_search_finds(229, 0, 204);
    } else if s == 230 {
        lemma_search_finds(230, 0, 219);
    } else if s == 231 {
        lemma_search_finds(231, 0, 80);
    } else if s == 232 {
        lemma_search_finds(232, 0, 63);
    } else if s == 233 {
        lemma_search_finds(233, 0, 196);
    } else if s == 234 {
        lemma_search_finds(234, 0, 29);
    } else if s == 235 {
        lemma_search_finds(235, 0, 39);
    } else if s == 236 {
        lemma_search_finds(236, 0, 231);
    } else if s == 237 {
        lemma_search_finds(237, 0, 83);
    } else if s == 238 {
        lemma_search_finds(238, 0, 59);
    } else if s == 239 {
        lemma_search_finds(239, 0, 23);
    } else if s == 240 {
        lemma_search_finds(240, 0, 239);
    } else if s == 241 {
        lemma_search_finds(241, 0, 239);
    } else if s == 242 {
        lemma_search_finds(242, 0, 3);
    } else if s == 243 {
        lemma_search_finds(243, 0, 191);
    } else if s == 244 {
        lemma_search_finds(244, 0, 219);
    } else if s == 245 {
        lemma_search_finds(245, 0, 129);
    } else if s == 246 {
        lemma_search_finds(246, 0, 89);
    } else if s == 247 {
        lemma_search_finds(247, 0, 224);
    } else if s == 248 {
        lemma_search_finds(248, 0, 63);
    } else if s == 249 {
        lemma_search_finds(249, 0, 95);
    } else if s == 250 {
        lemma_search_finds(250, 0, 19);
    } else if s == 251 {
        lemma_search_finds(251, 0, 234);
    } else if s == 252 {
        lemma_search_finds(252, 0, 227);
    } else if s == 253 {
        lemma_search_finds(253, 0, 58);
    } else if s == 254 {
        lemma_search_finds(254, 0, 97);
    } else if s == 255 {
        lemma_search_finds(255, 0, 59);
    } else if s == 256 {
        lemma_search_finds(256, 0, 255);
    } else if s == 257 {
        lemma_search_finds(257, 0, 54);
    } else if s == 258 {
        lemma_search_finds(258, 0, 53);
    } else if s == 259 {
        lemma_search_finds(259, 0, 87);
    } else if s == 260 {
        lemma_search_finds(260, 0, 159);
    } else if s == 261 {
        lemma_search_finds(261, 0, 92);
    } else if s == 262 {
        lemma_search_finds(262, 0, 193);
    } else if s == 263 {
        lemma_search_finds(263, 0, 261);
    } else if s == 264 {
        lemma_search_finds(264, 0, 47);
    } else if s == 265 {
        lemma_search_finds(265, 0, 64);
    } else if s == 266 {
        lemma_search_finds(266, 0, 129);
    } else if s == 267 {
        lemma_search_finds(267, 0, 131);
    } else if s == 268 {
        lemma_search_finds(268, 0, 11);
    } else if s == 269 {
        lemma_search_finds(269, 0, 85);
    } else if s == 270 {
        lemma_search_finds(270, 0, 29);
    } else if s == 271 {
        lemma_search_finds(271, 0, 258);
    } else if s == 272 {
        lemma_search_finds(272, 0, 127);
    } else if s == 273 {
        lemma_search_finds(273, 0, 185);
    } else if s == 274 {
        lemma_search_finds(274, 0, 51);
    } else if s == 275 {
        lemma_search_finds(275, 0, 69);
    } else if s == 276 {
        lemma_search_finds(276, 0, 35);
    } else if s == 277 {
        lemma_search_finds(277, 0, 166);
    } else if s == 278 {
        lemma_search_finds(278, 0, 47);
    } else if s == 279 {
        lemma_search_finds(279, 0, 218);
    } else if s == 280 {
        lemma_search_finds(280, 0, 199);
    } else if s == 281 {
        lemma_search_finds(281, 0, 175);
    } else if s == 282 {
        lemma_search_finds(282, 0, 227);
    } else if s == 283 {
        lemma_search_finds(283, 0, 214);
    } else if s == 284 {
        lemma_search_finds(284, 0, 47);
    } else if s == 285 {
        lemma_search_finds(285, 0, 224);
    } else if s == 286 {
        lemma_search_finds(286, 0, 3);
    } else if s == 287 {
        lemma_search_finds(287, 0, 171);
    } else if s == 288 {
        lemma_search_finds(288, 0, 191);
    } else if s == 289 {
        lemma_search_finds(289, 0, 76);
    } else if s == 290 {
        lemma_search_finds(290, 0, 179);
    } else if s == 291 {
        lemma_search_finds(291, 0, 269);
    } else if s == 292 {
        lemma_search_finds(292, 0, 187);
    } else if s == 293 {
        lemma_search_finds(293, 0, 99);
    } else if s == 294 {
        lemma_search_finds(294, 0, 227);
    } else if s == 295 {
        lemma_search_finds(295, 0, 54);
    } else if s == 296 {
        lemma_search_finds(296, 0, 87);
    } else if s == 297 {
        lemma_search_finds(297, 0, 245);
    } else if s == 298 {
        lemma_search_finds(298, 0, 287);
    } else if s == 299 {
        lemma_search_finds(299, 0, 81);
    } else if s == 300 {
        lemma_search_finds(300, 0, 119);
    }
}

proof fn lemma_sums_301_to_400(s: nat)
    requires
        301 <= s <= 400,
    ensures
        inverse_search(s, 0) != 0,
{
    if s == 301 {
        lemma_search_finds(301, 0, 10);
    } else if s == 302 {
        lemma_search_finds(302, 0, 85);
    } else if s == 303 {
        lemma_search_finds(303, 0, 182);
    } else if s == 304 {
        lemma_search_finds(304, 0, 15);
    } else if s == 305 {
        lemma_search_finds(305, 0, 219);
    } else if s == 306 {
        lemma_search_finds(306, 0, 263);
    } else if s == 307 {
        lemma_search_finds(307, 0, 109);
    } else if s == 308 {
        lemma_search_finds(308, 0, 3);
    } else if s == 309 {
        lemma_search_finds(309, 0, 296);
    } else if s == 310 {
        lemma_search_finds(310, 0, 249);
    } else if s == 311 {
        lemma_search_finds(311, 0, 217);
    } else if s == 312 {
        lemma_search_finds(312, 0, 263);
    } else if s == 313 {
        lemma_search_finds(313, 0, 63);
    } else if s == 314 {
        lemma_search_finds(314, 0, 65);
    } else if s == 315 {
        lemma_search_finds(315, 0, 164);
    } else if s == 316 {
        lemma_search_finds(316, 0, 83);
    } else if s == 317 {
        lemma_search_finds(317, 0, 265);
    } else if s == 318 {
        lemma_search_finds(318, 0, 11);
    } else if s == 319 {
        lemma_search_finds(319, 0, 179);
    } else if s == 320 {
        lemma_search_finds(320, 0, 319);
    } else if s == 321 {
        lemma_search_finds(321, 0, 290);
    } else if s == 322 {
        lemma_search_finds(322, 0, 311);
    } else if s == 323 {
        lemma_search_finds(323, 0, 110);
    } else if s == 324 {
        lemma_search_finds(324, 0, 191);
    } else if s == 325 {
        lemma_search_finds(325, 0, 94);
    } else if s == 326 {
        lemma_search_finds(326, 0, 323);
    } else if s == 327 {
        lemma_search_finds(327, 0, 89);
    } else if s == 328 {
        lemma_search_finds(328, 0, 7);
    } else if s == 329 {
        lemma_search_finds(329, 0, 227);
    } else if s == 330 {
        lemma_search_finds(330, 0, 179);
    } else if s == 331 {
        lemma_search_finds(331, 0, 86);
    } else if s == 332 {
        lemma_search_finds(332, 0, 95);
    } else if s == 333 {
        lemma_search_finds(333, 0, 272);
    } else if s == 334 {
        lemma_search_finds(334, 0, 79);
    } else if s == 335 {
        lemma_search_finds(335, 0, 279);
    } else if s == 336 {
        lemma_search_finds(336, 0, 143);
    } else if s == 337 {
        lemma_search_finds(337, 0, 182);
    } else if s == 338 {
        lemma_search_finds(338, 0, 159);
    } else if s == 339 {
        lemma_search_finds(339, 0, 299);
    } else if s == 340 {
        lemma_search_finds(340, 0, 59);
    } else if s == 341 {
        lemma_search_finds(341, 0, 311);
    } else if s == 342 {
        lemma_search_finds(342, 0, 281);
    } else if s == 343 {
        lemma_search_finds(343, 0, 325);
    } else if s == 344 {
        lemma_search_finds(344, 0, 311);
    } else if s == 345 {
        lemma_search_finds(345, 0, 104);
    } else if s == 346 {
        lemma_search_finds(346, 0, 267);
    } else if s == 347 {
        lemma_search_finds(347, 0, 285);
    } else if s == 348 {
        lemma_search_finds(348, 0, 179);
    } else if s == 349 {
        lemma_search_finds(349, 0, 23);
    } else if s == 350 {
        lemma_search_finds(350, 0, 269);
    } else if s == 351 {
        lemma_search_finds(351, 0, 29);
    } else if s == 352 {
        lemma_search_finds(352, 0, 223);
    } else if s == 353 {
        lemma_search_finds(353, 0, 288);
    } else if s == 354 {
        lemma_search_finds(354, 0, 113);
    } else if s == 355 {
        lemma_search_finds(355, 0, 189);
    } else if s == 356 {
        lemma_search_finds(356, 0, 131);
    } else if s == 357 {
        lemma_search_finds(357, 0, 59);
    } else if s == 358 {
        lemma_search_finds(358, 0, 233);
    } else if s == 359 {
        lemma_search_finds(359, 0, 344);
    } else if s == 360 {
        lemma_search_finds(360, 0, 119);
    } else if s == 361 {
        lemma_search_finds(361, 0, 186);
    } else if s == 362 {
        lemma_search_finds(362, 0, 333);
    } else if s == 363 {
        lemma_search_finds(363, 0, 245);
    } else if s == 364 {
        lemma_search_finds(364, 0, 3);
    } else if s == 365 {
        lemma_search_finds(365, 0, 114);
    } else if s == 366 {
        lemma_search_finds(366, 0, 341);
    } else if s == 367 {
        lemma_search_finds(367, 0, 137);
    } else if s == 368 {
        lemma_search_finds(368, 0, 127);
    } else if s == 369 {
        lemma_search_finds(369, 0, 335);
    } else if s == 370 {
        lemma_search_finds(370, 0, 309);
    } else if s == 371 {
        lemma_search_finds(371, 0, 276);
    } else if s == 372 {
        lemma_search_finds(372, 0, 311);
    } else if s == 373 {
        lemma_search_finds(373, 0, 343);
    } else if s == 374 {
        lemma_search_finds(374, 0, 25);
    } else if s == 375 {
        lemma_search_finds(375, 0, 269);
    } else if s == 376 {
        lemma_search_finds(376, 0, 39);
    } else if s == 377 {
        lemma_search_finds(377, 0, 237);
    } else if s == 378 {
        lemma_search_finds(378, 0, 353);
    } else if s == 379 {
        lemma_search_finds(379, 0, 193);
    } else if s == 380 {
        lemma_search_finds(380, 0, 319);
    } else if s == 381 {
        lemma_search_finds(381, 0, 224);
    } else if s == 382 {
        lemma_search_finds(382, 0, 11);
    } else if s == 383 {
        lemma_search_finds(383, 0, 64);
    } else if s == 384 {
        lemma_search_finds(384, 0, 383);
    } else if s == 385 {
        lemma_search_finds(385, 0, 234);
    } else if s == 386 {
        lemma_search_finds(386, 0, 207);
    } else if s == 387 {
        lemma_search_finds(387, 0, 182);
    } else if s == 388 {
        lemma_search_finds(388, 0, 75);
    } else if s == 389 {
        lemma_search_finds(389, 0, 5);
    } else if s == 390 {
        lemma_search_finds(390, 0, 29);
    } else if s == 391 {
        lemma_search_finds(391, 0, 127);
    } else if s == 392 {
        lemma_search_finds(392, 0, 31);
    } else if s == 393 {
        lemma_search_finds(393, 0, 62);
    } else if s == 394 {
        lemma_search_finds(394, 0, 169);
    } else if s == 395 {
        lemma_search_finds(395, 0, 4);
    } else if s == 396 {
        lemma_search_finds(396, 0, 47);
    } else if s == 397 {
        lemma_search_finds(397, 0, 92);
    } else if s == 398 {
        lemma_search_finds(398, 0, 307);
    } else if s == 399 {
        lemma_search_finds(399, 0, 395);
    } else if s == 400 {
        lemma_search_finds(400, 0, 319);
    }
}

proof fn lemma_sums_401_to_500(s: nat)
    requires
        401 <= s <= 500,
    ensures
        inverse_search(s, 0) != 0,
{
    if s == 401 {
        lemma_search_finds(401, 0, 375);
    } else if s == 402 {
        lemma_search_finds(402, 0, 11);
    } else if s == 403 {
        lemma_search_finds(403, 0, 94);
    } else if s == 404 {
        lemma_search_finds(404, 0, 283);
    } else if s == 405 {
        lemma_search_finds(405, 0, 29);
    } else if s == 406 {
        lemma_search_finds(406, 0, 353);
    } else if s == 407 {
        lemma_search_finds(407, 0, 124);
    } else if s == 408 {
        lemma_search_finds(408, 0, 263);
    } else if s == 409 {
        lemma_search_finds(409, 0, 108);
    } else if s == 410 {
        lemma_search_finds(410, 0, 89);
    } else if s == 411 {
        lemma_search_finds(411, 0, 188);
    } else if s == 412 {
        lemma_search_finds(412, 0, 399);
    } else if s == 413 {
        lemma_search_finds(413, 0, 290);
    } else if s == 414 {
        lemma_search_finds(414, 0, 173);
    } else if s == 415 {
        lemma_search_finds(415, 0, 344);
    } else if s == 416 {
        lemma_search_finds(416, 0, 159);
    } else if s == 417 {
        lemma_search_finds(417, 0, 47);
    } else if s == 418 {
        lemma_search_finds(418, 0, 91);
    } else if s == 419 {
        lemma_search_finds(419, 0, 212);
    } else if s == 420 {
        lemma_search_finds(420, 0, 59);
    } else if s == 421 {
        lemma_search_finds(421, 0, 295);
    } else if s == 422 {
        lemma_search_finds(422, 0, 77);
    } else if s == 423 {
        lemma_search_finds(423, 0, 227);
    } else if s == 424 {
        lemma_search_finds(424, 0, 223);
    } else if s == 425 {
        lemma_search_finds(425, 0, 144);
    } else if s == 426 {
        lemma_search_finds(426, 0, 47);
    } else if s == 427 {
        lemma_search_finds(427, 0, 402);
    } else if s == 428 {
        lemma_search_finds(428, 0, 183);
    } else if s == 429 {
        lemma_search_finds(429, 0, 146);
    } else if s == 430 {
        lemma_search_finds(430, 0, 139);
    } else if s == 431 {
        lemma_search_finds(431, 0, 132);
    } else if s == 432 {
        lemma_search_finds(432, 0, 191);
    } else if s == 433 {
        lemma_search_finds(433, 0, 425);
    } else if s == 434 {
        lemma_search_finds(434, 0, 311);
    } else if s == 435 {
        lemma_search_finds(435, 0, 179);
    } else if s == 436 {
        lemma_search_finds(436, 0, 307);
    } else if s == 437 {
        lemma_search_finds(437, 0, 357);
    } else if s == 438 {
        lemma_search_finds(438, 0, 41);
    } else if s == 439 {
        lemma_search_finds(439, 0, 71);
    } else if s == 440 {
        lemma_search_finds(440, 0, 399);
    } else if s == 441 {
        lemma_search_finds(441, 0, 227);
    } else if s == 442 {
        lemma_search_finds(442, 0, 263);
    } else if s == 443 {
        lemma_search_finds(443, 0, 223);
    } else if s == 444 {
        lemma_search_finds(444, 0, 383);
    } else if s == 445 {
        lemma_search_finds(445, 0, 309);
    } else if s == 446 {
        lemma_search_finds(446, 0, 213);
    } else if s == 447 {
        lemma_search_finds(447, 0, 287);
    } else if s == 448 {
        lemma_search_finds(448, 0, 255);
    } else if s == 449 {
        lemma_search_finds(449, 0, 58);
    } else if s == 450 {
        lemma_search_finds(450, 0, 119);
    } else if s == 451 {
        lemma_search_finds(451, 0, 212);
    } else if s == 452 {
        lemma_search_finds(452, 0, 299);
    } else if s == 453 {
        lemma_search_finds(453, 0, 236);
    } else if s == 454 {
        lemma_search_finds(454, 0, 53);
    } else if s == 455 {
        lemma_search_finds(455, 0, 94);
    } else if s == 456 {
        lemma_search_finds(456, 0, 167);
    } else if s == 457 {
        lemma_search_finds(457, 0, 233);
    } else if s == 458 {
        lemma_search_finds(458, 0, 433);
    } else if s == 459 {
        lemma_search_finds(459, 0, 110);
    } else if s == 460 {
        lemma_search_finds(460, 0, 219);
    } else if s == 461 {
        lemma_search_finds(461, 0, 210);
    } else if s == 462 {
        lemma_search_finds(462, 0, 311);
    } else if s == 463 {
        lemma_search_finds(463, 0, 322);
    } else if s == 464 {
        lemma_search_finds(464, 0, 63);
    } else if s == 465 {
        lemma_search_finds(465, 0, 404);
    } else if s == 466 {
        lemma_search_finds(466, 0, 429);
    } else if s == 467 {
        lemma_search_finds(467, 0, 184);
    } else if s == 468 {
        lemma_search_finds(468, 0, 263);
    } else if s == 469 {
        lemma_search_finds(469, 0, 346);
    } else if s == 470 {
        lemma_search_finds(470, 0, 39);
    } else if s == 471 {
        lemma_search_finds(471, 0, 65);
    } else if s == 472 {
        lemma_search_finds(472, 0, 231);
    } else if s == 473 {
        lemma_search_finds(473, 0, 311);
    } else if s == 474 {
        lemma_search_finds(474, 0, 83);
    } else if s == 475 {
        lemma_search_finds(475, 0, 319);
    } else if s == 476 {
        lemma_search_finds(476, 0, 59);
    } else if s == 477 {
        lemma_search_finds(477, 0, 11);
    } else if s == 478 {
        lemma_search_finds(478, 0, 23);
    } else if s == 479 {
        lemma_search_finds(479, 0, 217);
    } else if s == 480 {
        lemma_search_finds(480, 0, 479);
    } else if s == 481 {
        lemma_search_finds(481, 0, 198);
    } else if s == 482 {
        lemma_search_finds(482, 0, 239);
    } else if s == 483 {
        lemma_search_finds(483, 0, 311);
    } else if s == 484 {
        lemma_search_finds(484, 0, 3);
    } else if s == 485 {
        lemma_search_finds(485, 0, 269);
    } else if s == 486 {
        lemma_search_finds(486, 0, 191);
    } else if s == 487 {
        lemma_search_finds(487, 0, 151);
    } else if s == 488 {
        lemma_search_finds(488, 0, 463);
    } else if s == 489 {
        lemma_search_finds(489, 0, 323);
    } else if s == 490 {
        lemma_search_finds(490, 0, 129);
    } else if s == 491 {
        lemma_search_finds(491, 0, 146);
    } else if s == 492 {
        lemma_search_finds(492, 0, 335);
    } else if s == 493 {
        lemma_search_finds(493, 0, 382);
    } else if s == 494 {
        lemma_search_finds(494, 0, 471);
    } else if s == 495 {
        lemma_search_finds(495, 0, 344);
    } else if s == 496 {
        lemma_search_finds(496, 0, 63);
    } else if s == 497 {
        lemma_search_finds(497, 0, 402);
    } else if s == 498 {
        lemma_search_finds(498, 0, 95);
    } else if s == 499 {
        lemma_search_finds(499, 0, 68);
    } else if s == 500 {
        lemma_search_finds(500, 0, 19);
    }
}

proof fn lemma_sums_501_to_600(s: nat)
    requires
        501 <= s <= 600,
    ensures
        inverse_search(s, 0) != 0,
{
    if s == 501 {
        lemma_search_finds(501, 0, 413);
    } else if s == 502 {
        lemma_search_finds(502, 0, 485);
    } else if s == 503 {
        lemma_search_finds(503, 0, 89);
    } else if s == 504 {
        lemma_search_finds(504, 0, 479);
    } else if s == 505 {
        lemma_search_finds(505, 0, 384);
    } else if s == 506 {
        lemma_search_finds(506, 0, 311);
    } else if s == 507 {
        lemma_search_finds(507, 0, 497);
    } else if s == 508 {
        lemma_search_finds(508, 0, 351);
    } else if s == 509 {
        lemma_search_finds(509, 0, 425);
    } else if s == 510 {
        lemma_search_finds(510, 0, 59);
    } else if s == 511 {
        lemma_search_finds(511, 0, 479);
    } else if s == 512 {
        lemma_search_finds(512, 0, 511);
    } else if s == 513 {
        lemma_search_finds(513, 0, 110);
    } else if s == 514 {
        lemma_search_finds(514, 0, 311);
    } else if s == 515 {
        lemma_search_finds(515, 0, 399);
    } else if s == 516 {
        lemma_search_finds(516, 0, 311);
    } else if s == 517 {
        lemma_search_finds(517, 0, 509);
    } else if s == 518 {
        lemma_search_finds(518, 0, 87);
    } else if s == 519 {
        lemma_search_finds(519, 0, 440);
    } else if s == 520 {
        lemma_search_finds(520, 0, 159);
    } else if s == 521 {
        lemma_search_finds(521, 0, 372);
    } else if s == 522 {
        lemma_search_finds(522, 0, 353);
    } else if s == 523 {
        lemma_search_finds(523, 0, 308);
    } else if s == 524 {
        lemma_search_finds(524, 0, 455);
    } else if s == 525 {
        lemma_search_finds(525, 0, 269);
    } else if s == 526 {
        lemma_search_finds(526, 0, 261);
    } else if s == 527 {
        lemma_search_finds(527, 0, 280);
    } else if s == 528 {
        lemma_search_finds(528, 0, 47);
    } else if s == 529 {
        lemma_search_finds(529, 0, 357);
    } else if s == 530 {
        lemma_search_finds(530, 0, 329);
    } else if s == 531 {
        lemma_search_finds(531, 0, 290);
    } else if s == 532 {
        lemma_search_finds(532, 0, 395);
    } else if s == 533 {
        lemma_search_finds(533, 0, 458);
    } else if s == 534 {
        lemma_search_finds(534, 0, 131);
    } else if s == 535 {
        lemma_search_finds(535, 0, 504);
    } else if s == 536 {
        lemma_search_finds(536, 0, 279);
    } else if s == 537 {
        lemma_search_finds(537, 0, 233);
    } else if s == 538 {
        lemma_search_finds(538, 0, 85);
    } else if s == 539 {
        lemma_search_finds(539, 0, 80);
    } else if s == 540 {
        lemma_search_finds(540, 0, 299);
    } else if s == 541 {
        lemma_search_finds(541, 0, 243);
    } else if s == 542 {
        lemma_search_finds(542, 0, 529);
    } else if s == 543 {
        lemma_search_finds(543, 0, 152);
    } else if s == 544 {
        lemma_search_finds(544, 0, 127);
    } else if s == 545 {
        lemma_search_finds(545, 0, 89);
    } else if s == 546 {
        lemma_search_finds(546, 0, 185);
    } else if s == 547 {
        lemma_search_finds(547, 0, 85);
    } else if s == 548 {
        lemma_search_finds(548, 0, 51);
    } else if s == 549 {
        lemma_search_finds(549, 0, 524);
    } else if s == 550 {
        lemma_search_finds(550, 0, 69);
    } else if s == 551 {
        lemma_search_finds(551, 0, 34);
    } else if s == 552 {
        lemma_search_finds(552, 0, 311);
    } else if s == 553 {
        lemma_search_finds(553, 0, 241);
    } else if s == 554 {
        lemma_search_finds(554, 0, 443);
    } else if s == 555 {
        lemma_search_finds(555, 0, 494);
    } else if s == 556 {
        lemma_search_finds(556, 0, 47);
    } else if s == 557 {
        lemma_search_finds(557, 0, 139);
    } else if s == 558 {
        lemma_search_finds(558, 0, 497);
    } else if s == 559 {
        lemma_search_finds(559, 0, 354);
    } else if s == 560 {
        lemma_search_finds(560, 0, 479);
    } else if s == 561 {
        lemma_search_finds(561, 0, 212);
    } else if s == 562 {
        lemma_search_finds(562, 0, 175);
    } else if s == 563 {
        lemma_search_finds(563, 0, 60);
    } else if s == 564 {
        lemma_search_finds(564, 0, 227);
    } else if s == 565 {
        lemma_search_finds(565, 0, 299);
    } else if s == 566 {
        lemma_search_finds(566, 0, 497);
    } else if s == 567 {
        lemma_search_finds(567, 0, 353);
    } else if s == 568 {
        lemma_search_finds(568, 0, 47);
    } else if s == 569 {
        lemma_search_finds(569, 0, 490);
    } else if s == 570 {
        lemma_search_finds(570, 0, 509);
    } else if s == 571 {
        lemma_search_finds(571, 0, 152);
    } else if s == 572 {
        lemma_search_finds(572, 0, 3);
    } else if s == 573 {
        lemma_search_finds(573, 0, 11);
    } else if s == 574 {
        lemma_search_finds(574, 0, 171);
    } else if s == 575 {
        lemma_search_finds(575, 0, 219);
    } else if s == 576 {
        lemma_search_finds(576, 0, 191);
    } else if s == 577 {
        lemma_search_finds(577, 0, 27);
    } else if s == 578 {
        lemma_search_finds(578, 0, 365);
    } else if s == 579 {
        lemma_search_finds(579, 0, 14);
    } else if s == 580 {
        lemma_search_finds(580, 0, 179);
    } else if s == 581 {
        lemma_search_finds(581, 0, 178);
    } else if s == 582 {
        lemma_search_finds(582, 0, 269);
    } else if s == 583 {
        lemma_search_finds(583, 0, 223);
    } else if s == 584 {
        lemma_search_finds(584, 0, 479);
    } else if s == 585 {
        lemma_search_finds(585, 0, 29);
    } else if s == 586 {
        lemma_search_finds(586, 0, 99);
    } else if s == 587 {
        lemma_search_finds(587, 0, 189);
    } else if s == 588 {
        lemma_search_finds(588, 0, 227);
    } else if s == 589 {
        lemma_search_finds(589, 0, 528);
    } else if s == 590 {
        lemma_search_finds(590, 0, 349);
    } else if s == 591 {
        lemma_search_finds(591, 0, 563);
    } else if s == 592 {
        lemma_search_finds(592, 0, 383);
    } else if s == 593 {
        lemma_search_finds(593, 0, 293);
    } else if s == 594 {
        lemma_search_finds(594, 0, 245);
    } else if s == 595 {
        lemma_search_finds(595, 0, 59);
    } else if s == 596 {
        lemma_search_finds(596, 0, 287);
    } else if s == 597 {
        lemma_search_finds(597, 0, 506);
    } else if s == 598 {
        lemma_search_finds(598, 0, 81);
    } else if s == 599 {
        lemma_search_finds(599, 0, 370);
    } else if s == 600 {
        lemma_search_finds(600, 0, 119);
    }
}

proof fn lemma_sums_601_to_700(s: nat)
    requires
        601 <= s <= 700,
    ensures
        inverse_search(s, 0) != 0,
{
    if s == 601 {
        lemma_search_finds(601, 0, 266);
    } else if s == 602 {
        lemma_search_finds(602, 0, 311);
    } else if s == 603 {
        lemma_search_finds(603, 0, 11);
    } else if s == 604 {
        lemma_search_finds(604, 0, 387);
    } else if s == 605 {
        lemma_search_finds(605, 0, 124);
    } else if s == 606 {
        lemma_search_finds(606, 0, 485);
    } else if s == 607 {
        lemma_search_finds(607, 0, 512);
    } else if s == 608 {
        lemma_search_finds(608, 0, 319);
    } else if s == 609 {
        lemma_search_finds(609, 0, 353);
    } else if s == 610 {
        lemma_search_finds(610, 0, 219);
    } else if s == 611 {
        lemma_search_finds(611, 0, 133);
    } else if s == 612 {
        lemma_search_finds(612, 0, 263);
    } else if s == 613 {
        lemma_search_finds(613, 0, 190);
    } else if s == 614 {
        lemma_search_finds(614, 0, 109);
    } else if s == 615 {
        lemma_search_finds(615, 0, 89);
    } else if s == 616 {
        lemma_search_finds(616, 0, 311);
    } else if s == 617 {
        lemma_search_finds(617, 0, 233);
    } else if s == 618 {
        lemma_search_finds(618, 0, 605);
    } else if s == 619 {
        lemma_search_finds(619, 0, 62);
    } else if s == 620 {
        lemma_search_finds(620, 0, 559);
    } else if s == 621 {
        lemma_search_finds(621, 0, 380);
    } else if s == 622 {
        lemma_search_finds(622, 0, 217);
    } else if s == 623 {
        lemma_search_finds(623, 0, 220);
    } else if s == 624 {
        lemma_search_finds(624, 0, 575);
    } else if s == 625 {
        lemma_search_finds(625, 0, 19);
    } else if s == 626 {
        lemma_search_finds(626, 0, 63);
    } else if s == 627 {
        lemma_search_finds(627, 0, 509);
    } else if s == 628 {
        lemma_search_finds(628, 0, 379);
    } else if s == 629 {
        lemma_search_finds(629, 0, 161);
    } else if s == 630 {
        lemma_search_finds(630, 0, 479);
    } else if s == 631 {
        lemma_search_finds(631, 0, 57);
    } else if s == 632 {
        lemma_search_finds(632, 0, 399);
    } else if s == 633 {
        lemma_search_finds(633, 0, 77);
    } else if s == 634 {
        lemma_search_finds(634, 0, 265);
    } else if s == 635 {
        lemma_search_finds(635, 0, 224);
    } else if s == 636 {
        lemma_search_finds(636, 0, 11);
    } else if s == 637 {
        lemma_search_finds(637, 0, 276);
    } else if s == 638 {
        lemma_search_finds(638, 0, 179);
    } else if s == 639 {
        lemma_search_finds(639, 0, 47);
    } else if s == 640 {
        lemma_search_finds(640, 0, 639);
    } else if s == 641 {
        lemma_search_finds(641, 0, 526);
    } else if s == 642 {
        lemma_search_finds(642, 0, 611);
    } else if s == 643 {
        lemma_search_finds(643, 0, 216);
    } else if s == 644 {
        lemma_search_finds(644, 0, 311);
    } else if s == 645 {
        lemma_search_finds(645, 0, 569);
    } else if s == 646 {
        lemma_search_finds(646, 0, 433);
    } else if s == 647 {
        lemma_search_finds(647, 0, 627);
    } else if s == 648 {
        lemma_search_finds(648, 0, 191);
    } else if s == 649 {
        lemma_search_finds(649, 0, 113);
    } else if s == 650 {
        lemma_search_finds(650, 0, 419);
    } else if s == 651 {
        lemma_search_finds(651, 0, 311);
    } else if s == 652 {
        lemma_search_finds(652, 0, 323);
    } else if s == 653 {
        lemma_search_finds(653, 0, 284);
    } else if s == 654 {
        lemma_search_finds(654, 0, 89);
    } else if s == 655 {
        lemma_search_finds(655, 0, 324);
    } else if s == 656 {
        lemma_search_finds(656, 0, 335);
    } else if s == 657 {
        lemma_search_finds(657, 0, 479);
    } else if s == 658 {
        lemma_search_finds(658, 0, 227);
    } else if s == 659 {
        lemma_search_finds(659, 0, 513);
    } else if s == 660 {
        lemma_search_finds(660, 0, 179);
    } else if s == 661 {
        lemma_search_finds(661, 0, 212);
    } else if s == 662 {
        lemma_search_finds(662, 0, 417);
    } else if s == 663 {
        lemma_search_finds(663, 0, 263);
    } else if s == 664 {
        lemma_search_finds(664, 0, 95);
    } else if s == 665 {
        lemma_search_finds(665, 0, 129);
    } else if s == 666 {
        lemma_search_finds(666, 0, 605);
    } else if s == 667 {
        lemma_search_finds(667, 0, 150);
    } else if s == 668 {
        lemma_search_finds(668, 0, 79);
    } else if s == 669 {
        lemma_search_finds(669, 0, 659);
    } else if s == 670 {
        lemma_search_finds(670, 0, 279);
    } else if s == 671 {
        lemma_search_finds(671, 0, 36);
    } else if s == 672 {
        lemma_search_finds(672, 0, 479);
    } else if s == 673 {
        lemma_search_finds(673, 0, 509);
    } else if s == 674 {
        lemma_search_finds(674, 0, 519);
    } else if s == 675 {
        lemma_search_finds(675, 0, 569);
    } else if s == 676 {
        lemma_search_finds(676, 0, 159);
    } else if s == 677 {
        lemma_search_finds(677, 0, 201);
    } else if s == 678 {
        lemma_search_finds(678, 0, 299);
    } else if s == 679 {
        lemma_search_finds(679, 0, 269);
    } else if s == 680 {
        lemma_search_finds(680, 0, 399);
    } else if s == 681 {
        lemma_search_finds(681, 0, 53);
    } else if s == 682 {
        lemma_search_finds(682, 0, 311);
    } else if s == 683 {
        lemma_search_finds(683, 0, 612);
    } else if s == 684 {
        lemma_search_finds(684, 0, 623);
    } else if s == 685 {
        lemma_search_finds(685, 0, 599);
    } else if s == 686 {
        lemma_search_finds(686, 0, 325);
    } else if s == 687 {
        lemma_search_finds(687, 0, 662);
    } else if s == 688 {
        lemma_search_finds(688, 0, 655);
    } else if s == 689 {
        lemma_search_finds(689, 0, 276);
    } else if s == 690 {
        lemma_search_finds(690, 0, 449);
    } else if s == 691 {
        lemma_search_finds(691, 0, 536);
    } else if s == 692 {
        lemma_search_finds(692, 0, 267);
    } else if s == 693 {
        lemma_search_finds(693, 0, 542);
    } else if s == 694 {
        lemma_search_finds(694, 0, 285);
    } else if s == 695 {
        lemma_search_finds(695, 0, 464);
    } else if s == 696 {
        lemma_search_finds(696, 0, 527);
    } else if s == 697 {
        lemma_search_finds(697, 0, 212);
    } else if s == 698 {
        lemma_search_finds(698, 0, 23);
    } else if s == 699 {
        lemma_search_finds(699, 0, 662);
    } else if s == 700 {
        lemma_search_finds(700, 0, 619);
    }
}

proof fn lemma_sums_701_to_800(s: nat)
    requires
        701 <= s <= 800,
    ensures
        inverse_search(s, 0) != 0,
{
    if s == 701 {
        lemma_search_finds(701, 0, 64);
    } else if s == 702 {
        lemma_search_finds(702, 0, 29);
    } else if s == 703 {
        lemma_search_finds(703, 0, 642);
    } else if s == 704 {
        lemma_search_finds(704, 0, 575);
    } else if s == 705 {
        lemma_search_finds(705, 0, 509);
    } else if s == 706 {
        lemma_search_finds(706, 0, 641);
    } else if s == 707 {
        lemma_search_finds(707, 0, 283);
    } else if s == 708 {
        lemma_search_finds(708, 0, 467);
    } else if s == 709 {
        lemma_search_finds(709, 0, 659);
    } else if s == 710 {
        lemma_search_finds(710, 0, 189);
    } else if s == 711 {
        lemma_search_finds(711, 0, 83);
    } else if s == 712 {
        lemma_search_finds(712, 0, 487);
    } else if s == 713 {
        lemma_search_finds(713, 0, 311);
    } else if s == 714 {
        lemma_search_finds(714, 0, 59);
    } else if s == 715 {
        lemma_search_finds(715, 0, 289);
    } else if s == 716 {
        lemma_search_finds(716, 0, 591);
    } else if s == 717 {
        lemma_search_finds(717, 0, 23);
    } else if s == 718 {
        lemma_search_finds(718, 0, 703);
    } else if s == 719 {
        lemma_search_finds(719, 0, 700);
    } else if s == 720 {
        lemma_search_finds(720, 0, 479);
    } else if s == 721 {
        lemma_search_finds(721, 0, 605);
    } else if s == 722 {
        lemma_search_finds(722, 0, 547);
    } else if s == 723 {
        lemma_search_finds(723, 0, 239);
    } else if s == 724 {
        lemma_search_finds(724, 0, 695);
    } else if s == 725 {
        lemma_search_finds(725, 0, 469);
    } else if s == 726 {
        lemma_search_finds(726, 0, 245);
    } else if s == 727 {
        lemma_search_finds(727, 0, 190);
    } else if s == 728 {
        lemma_search_finds(728, 0, 367);
    } else if s == 729 {
        lemma_search_finds(729, 0, 434);
    } else if s == 730 {
        lemma_search_finds(730, 0, 479);
    } else if s == 731 {
        lemma_search_finds(731, 0, 569);
    } else if s == 732 {
        lemma_search_finds(732, 0, 707);
    } else if s == 733 {
        lemma_search_finds(733, 0, 139);
    } else if s == 734 {
        lemma_search_finds(734, 0, 137);
    } else if s == 735 {
        lemma_search_finds(735, 0, 374);
    } else if s == 736 {
        lemma_search_finds(736, 0, 127);
    } else if s == 737 {
        lemma_search_finds(737, 0, 212);
    } else if s == 738 {
        lemma_search_finds(738, 0, 335);
    } else if s == 739 {
        lemma_search_finds(739, 0, 249);
    } else if s == 740 {
        lemma_search_finds(740, 0, 679);
    } else if s == 741 {
        lemma_search_finds(741, 0, 224);
    } else if s == 742 {
        lemma_search_finds(742, 0, 647);
    } else if s == 743 {
        lemma_search_finds(743, 0, 575);
    } else if s == 744 {
        lemma_search_finds(744, 0, 311);
    } else if s == 745 {
        lemma_search_finds(745, 0, 734);
    } else if s == 746 {
        lemma_search_finds(746, 0, 343);
    } else if s == 747 {
        lemma_search_finds(747, 0, 344);
    } else if s == 748 {
        lemma_search_finds(748, 0, 399);
    } else if s == 749 {
        lemma_search_finds(749, 0, 290);
    } else if s == 750 {
        lemma_search_finds(750, 0, 269);
    } else if s == 751 {
        lemma_search_finds(751, 0, 245);
    } else if s == 752 {
        lemma_search_finds(752, 0, 415);
    } else if s == 753 {
        lemma_search_finds(753, 0, 485);
    } else if s == 754 {
        lemma_search_finds(754, 0, 237);
    } else if s == 755 {
        lemma_search_finds(755, 0, 689);
    } else if s == 756 {
        lemma_search_finds(756, 0, 731);
    } else if s == 757 {
        lemma_search_finds(757, 0, 415);
    } else if s == 758 {
        lemma_search_finds(758, 0, 193);
    } else if s == 759 {
        lemma_search_finds(759, 0, 311);
    } else if s == 760 {
        lemma_search_finds(760, 0, 319);
    } else if s == 761 {
        lemma_search_finds(761, 0, 147);
    } else if s == 762 {
        lemma_search_finds(762, 0, 605);
    } else if s == 763 {
        lemma_search_finds(763, 0, 416);
    } else if s == 764 {
        lemma_search_finds(764, 0, 11);
    } else if s == 765 {
        lemma_search_finds(765, 0, 569);
    } else if s == 766 {
        lemma_search_finds(766, 0, 447);
    } else if s == 767 {
        lemma_search_finds(767, 0, 172);
    } else if s == 768 {
        lemma_search_finds(768, 0, 767);
    } else if s == 769 {
        lemma_search_finds(769, 0, 422);
    } else if s == 770 {
        lemma_search_finds(770, 0, 619);
    } else if s == 771 {
        lemma_search_finds(771, 0, 311);
    } else if s == 772 {
        lemma_search_finds(772, 0, 207);
    } else if s == 773 {
        lemma_search_finds(773, 0, 392);
    } else if s == 774 {
        lemma_search_finds(774, 0, 569);
    } else if s == 775 {
        lemma_search_finds(775, 0, 94);
    } else if s == 776 {
        lemma_search_finds(776, 0, 463);
    } else if s == 777 {
        lemma_search_finds(777, 0, 605);
    } else if s == 778 {
        lemma_search_finds(778, 0, 5);
    } else if s == 779 {
        lemma_search_finds(779, 0, 376);
    } else if s == 780 {
        lemma_search_finds(780, 0, 419);
    } else if s == 781 {
        lemma_search_finds(781, 0, 47);
    } else if s == 782 {
        lemma_search_finds(782, 0, 127);
    } else if s == 783 {
        lemma_search_finds(783, 0, 353);
    } else if s == 784 {
        lemma_search_finds(784, 0, 31);
    } else if s == 785 {
        lemma_search_finds(785, 0, 379);
    } else if s == 786 {
        lemma_search_finds(786, 0, 455);
    } else if s == 787 {
        lemma_search_finds(787, 0, 734);
    } else if s == 788 {
        lemma_search_finds(788, 0, 563);
    } else if s == 789 {
        lemma_search_finds(789, 0, 524);
    } else if s == 790 {
        lemma_search_finds(790, 0, 399);
    } else if s == 791 {
        lemma_search_finds(791, 0, 73);
    } else if s == 792 {
        lemma_search_finds(792, 0, 47);
    } else if s == 793 {
        lemma_search_finds(793, 0, 341);
    } else if s == 794 {
        lemma_search_finds(794, 0, 489);
    } else if s == 795 {
        lemma_search_finds(795, 0, 329);
    } else if s == 796 {
        lemma_search_finds(796, 0, 307);
    } else if s == 797 {
        lemma_search_finds(797, 0, 139);
    } else if s == 798 {
        lemma_search_finds(798, 0, 395);
    } else if s == 799 {
        lemma_search_finds(799, 0, 603);
    } else if s == 800 {
        lemma_search_finds(800, 0, 319);
    }
}

proof fn lemma_sums_801_to_900(s: nat)
    requires
        801 <= s <= 900,
    ensures
        inverse_search(s, 0) != 0,
{
    if s == 801 {
        lemma_search_finds(801, 0, 398);
    } else if s == 802 {
        lemma_search_finds(802, 0, 375);
    } else if s == 803 {
        lemma_search_finds(803, 0, 333);
    } else if s == 804 {
        lemma_search_finds(804, 0, 11);
    } else if s == 805 {
        lemma_search_finds(805, 0, 794);
    } else if s == 806 {
        lemma_search_finds(806, 0, 497);
    } else if s == 807 {
        lemma_search_finds(807, 0, 623);
    } else if s == 808 {
        lemma_search_finds(808, 0, 687);
    } else if s == 809 {
        lemma_search_finds(809, 0, 386);
    } else if s == 810 {
        lemma_search_finds(810, 0, 29);
    } else if s == 811 {
        lemma_search_finds(811, 0, 718);
    } else if s == 812 {
        lemma_search_finds(812, 0, 759);
    } else if s == 813 {
        lemma_search_finds(813, 0, 800);
    } else if s == 814 {
        lemma_search_finds(814, 0, 531);
    } else if s == 815 {
        lemma_search_finds(815, 0, 649);
    } else if s == 816 {
        lemma_search_finds(816, 0, 671);
    } else if s == 817 {
        lemma_search_finds(817, 0, 53);
    } else if s == 818 {
        lemma_search_finds(818, 0, 517);
    } else if s == 819 {
        lemma_search_finds(819, 0, 731);
    } else if s == 820 {
        lemma_search_finds(820, 0, 499);
    } else if s == 821 {
        lemma_search_finds(821, 0, 727);
    } else if s == 822 {
        lemma_search_finds(822, 0, 599);
    } else if s == 823 {
        lemma_search_finds(823, 0, 58);
    } else if s == 824 {
        lemma_search_finds(824, 0, 399);
    } else if s == 825 {
        lemma_search_finds(825, 0, 344);
    } else if s == 826 {
        lemma_search_finds(826, 0, 703);
    } else if s == 827 {
        lemma_search_finds(827, 0, 669);
    } else if s == 828 {
        lemma_search_finds(828, 0, 587);
    } else if s == 829 {
        lemma_search_finds(829, 0, 505);
    } else if s == 830 {
        lemma_search_finds(830, 0, 759);
    } else if s == 831 {
        lemma_search_finds(831, 0, 443);
    } else if s == 832 {
        lemma_search_finds(832, 0, 575);
    } else if s == 833 {
        lemma_search_finds(833, 0, 178);
    } else if s == 834 {
        lemma_search_finds(834, 0, 47);
    } else if s == 835 {
        lemma_search_finds(835, 0, 79);
    } else if s == 836 {
        lemma_search_finds(836, 0, 91);
    } else if s == 837 {
        lemma_search_finds(837, 0, 218);
    } else if s == 838 {
        lemma_search_finds(838, 0, 631);
    } else if s == 839 {
        lemma_search_finds(839, 0, 668);
    } else if s == 840 {
        lemma_search_finds(840, 0, 479);
    } else if s == 841 {
        lemma_search_finds(841, 0, 614);
    } else if s == 842 {
        lemma_search_finds(842, 0, 295);
    } else if s == 843 {
        lemma_search_finds(843, 0, 737);
    } else if s == 844 {
        lemma_search_finds(844, 0, 499);
    } else if s == 845 {
        lemma_search_finds(845, 0, 159);
    } else if s == 846 {
        lemma_search_finds(846, 0, 227);
    } else if s == 847 {
        lemma_search_finds(847, 0, 3);
    } else if s == 848 {
        lemma_search_finds(848, 0, 223);
    } else if s == 849 {
        lemma_search_finds(849, 0, 497);
    } else if s == 850 {
        lemma_search_finds(850, 0, 569);
    } else if s == 851 {
        lemma_search_finds(851, 0, 679);
    } else if s == 852 {
        lemma_search_finds(852, 0, 47);
    } else if s == 853 {
        lemma_search_finds(853, 0, 517);
    } else if s == 854 {
        lemma_search_finds(854, 0, 829);
    } else if s == 855 {
        lemma_search_finds(855, 0, 794);
    } else if s == 856 {
        lemma_search_finds(856, 0, 183);
    } else if s == 857 {
        lemma_search_finds(857, 0, 373);
    } else if s == 858 {
        lemma_search_finds(858, 0, 575);
    } else if s == 859 {
        lemma_search_finds(859, 0, 155);
    } else if s == 860 {
        lemma_search_finds(860, 0, 139);
    } else if s == 861 {
        lemma_search_finds(861, 0, 458);
    } else if s == 862 {
        lemma_search_finds(862, 0, 563);
    } else if s == 863 {
        lemma_search_finds(863, 0, 166);
    } else if s == 864 {
        lemma_search_finds(864, 0, 191);
    } else if s == 865 {
        lemma_search_finds(865, 0, 94);
    } else if s == 866 {
        lemma_search_finds(866, 0, 425);
    } else if s == 867 {
        lemma_search_finds(867, 0, 365);
    } else if s == 868 {
        lemma_search_finds(868, 0, 311);
    } else if s == 869 {
        lemma_search_finds(869, 0, 399);
    } else if s == 870 {
        lemma_search_finds(870, 0, 179);
    } else if s == 871 {
        lemma_search_finds(871, 0, 614);
    } else if s == 872 {
        lemma_search_finds(872, 0, 743);
    } else if s == 873 {
        lemma_search_finds(873, 0, 560);
    } else if s == 874 {
        lemma_search_finds(874, 0, 357);
    } else if s == 875 {
        lemma_search_finds(875, 0, 269);
    } else if s == 876 {
        lemma_search_finds(876, 0, 479);
    } else if s == 877 {
        lemma_search_finds(877, 0, 388);
    } else if s == 878 {
        lemma_search_finds(878, 0, 71);
    } else if s == 879 {
        lemma_search_finds(879, 0, 392);
    } else if s == 880 {
        lemma_search_finds(880, 0, 399);
    } else if s == 881 {
        lemma_search_finds(881, 0, 92);
    } else if s == 882 {
        lemma_search_finds(882, 0, 227);
    } else if s == 883 {
        lemma_search_finds(883, 0, 419);
    } else if s == 884 {
        lemma_search_finds(884, 0, 263);
    } else if s == 885 {
        lemma_search_finds(885, 0, 644);
    } else if s == 886 {
        lemma_search_finds(886, 0, 223);
    } else if s == 887 {
        lemma_search_finds(887, 0, 179);
    } else if s == 888 {
        lemma_search_finds(888, 0, 383);
    } else if s == 889 {
        lemma_search_finds(889, 0, 605);
    } else if s == 890 {
        lemma_search_finds(890, 0, 309);
    } else if s == 891 {
        lemma_search_finds(891, 0, 839);
    } else if s == 892 {
        lemma_search_finds(892, 0, 659);
    } else if s == 893 {
        lemma_search_finds(893, 0, 509);
    } else if s == 894 {
        lemma_search_finds(894, 0, 287);
    } else if s == 895 {
        lemma_search_finds(895, 0, 54);
    } else if s == 896 {
        lemma_search_finds(896, 0, 255);
    } else if s == 897 {
        lemma_search_finds(897, 0, 380);
    } else if s == 898 {
        lemma_search_finds(898, 0, 507);
    } else if s == 899 {
        lemma_search_finds(899, 0, 63);
    } else if s == 900 {
        lemma_search_finds(900, 0, 119);
    }
}

proof fn lemma_sums_901_to_1000(s: nat)
    requires
        901 <= s <= 1000,
    ensures
        inverse_search(s, 0) != 0,
{
    if s == 901 {
        lemma_search_finds(901, 0, 382);
    } else if s == 902 {
        lemma_search_finds(902, 0, 663);
    } else if s == 903 {
        lemma_search_finds(903, 0, 311);
    } else if s == 904 {
        lemma_search_finds(904, 0, 751);
    } else if s == 905 {
        lemma_search_finds(905, 0, 514);
    } else if s == 906 {
        lemma_search_finds(906, 0, 689);
    } else if s == 907 {
        lemma_search_finds(907, 0, 11);
    } else if s == 908 {
        lemma_search_finds(908, 0, 507);
    } else if s == 909 {
        lemma_search_finds(909, 0, 182);
    } else if s == 910 {
        lemma_search_finds(910, 0, 549);
    } else if s == 911 {
        lemma_search_finds(911, 0, 571);
    } else if s == 912 {
        lemma_search_finds(912, 0, 623);
    } else if s == 913 {
        lemma_search_finds(913, 0, 344);
    } else if s == 914 {
        lemma_search_finds(914, 0, 233);
    } else if s == 915 {
        lemma_search_finds(915, 0, 524);
    } else if s == 916 {
        lemma_search_finds(916, 0, 891);
    } else if s == 917 {
        lemma_search_finds(917, 0, 717);
    } else if s == 918 {
        lemma_search_finds(918, 0, 569);
    } else if s == 919 {
        lemma_search_finds(919, 0, 904);
    } else if s == 920 {
        lemma_search_finds(920, 0, 679);
    } else if s == 921 {
        lemma_search_finds(921, 0, 416);
    } else if s == 922 {
        lemma_search_finds(922, 0, 671);
    } else if s == 923 {
        lemma_search_finds(923, 0, 757);
    } else if s == 924 {
        lemma_search_finds(924, 0, 311);
    } else if s == 925 {
        lemma_search_finds(925, 0, 494);
    } else if s == 926 {
        lemma_search_finds(926, 0, 785);
    } else if s == 927 {
        lemma_search_finds(927, 0, 605);
    } else if s == 928 {
        lemma_search_finds(928, 0, 63);
    } else if s == 929 {
        lemma_search_finds(929, 0, 799);
    } else if s == 930 {
        lemma_search_finds(930, 0, 869);
    } else if s == 931 {
        lemma_search_finds(931, 0, 129);
    } else if s == 932 {
        lemma_search_finds(932, 0, 895);
    } else if s == 933 {
        lemma_search_finds(933, 0, 839);
    } else if s == 934 {
        lemma_search_finds(934, 0, 651);
    } else if s == 935 {
        lemma_search_finds(935, 0, 399);
    } else if s == 936 {
        lemma_search_finds(936, 0, 263);
    } else if s == 937 {
        lemma_search_finds(937, 0, 330);
    } else if s == 938 {
        lemma_search_finds(938, 0, 815);
    } else if s == 939 {
        lemma_search_finds(939, 0, 689);
    } else if s == 940 {
        lemma_search_finds(940, 0, 39);
    } else if s == 941 {
        lemma_search_finds(941, 0, 412);
    } else if s == 942 {
        lemma_search_finds(942, 0, 65);
    } else if s == 943 {
        lemma_search_finds(943, 0, 909);
    } else if s == 944 {
        lemma_search_finds(944, 0, 703);
    } else if s == 945 {
        lemma_search_finds(945, 0, 164);
    } else if s == 946 {
        lemma_search_finds(946, 0, 311);
    } else if s == 947 {
        lemma_search_finds(947, 0, 639);
    } else if s == 948 {
        lemma_search_finds(948, 0, 83);
    } else if s == 949 {
        lemma_search_finds(949, 0, 406);
    } else if s == 950 {
        lemma_search_finds(950, 0, 319);
    } else if s == 951 {
        lemma_search_finds(951, 0, 899);
    } else if s == 952 {
        lemma_search_finds(952, 0, 535);
    } else if s == 953 {
        lemma_search_finds(953, 0, 935);
    } else if s == 954 {
        lemma_search_finds(954, 0, 11);
    } else if s == 955 {
        lemma_search_finds(955, 0, 584);
    } else if s == 956 {
        lemma_search_finds(956, 0, 23);
    } else if s == 957 {
        lemma_search_finds(957, 0, 179);
    } else if s == 958 {
        lemma_search_finds(958, 0, 217);
    } else if s == 959 {
        lemma_search_finds(959, 0, 325);
    } else if s == 960 {
        lemma_search_finds(960, 0, 959);
    } else if s == 961 {
        lemma_search_finds(961, 0, 714);
    } else if s == 962 {
        lemma_search_finds(962, 0, 679);
    } else if s == 963 {
        lemma_search_finds(963, 0, 290);
    } else if s == 964 {
        lemma_search_finds(964, 0, 239);
    } else if s == 965 {
        lemma_search_finds(965, 0, 14);
    } else if s == 966 {
        lemma_search_finds(966, 0, 311);
    } else if s == 967 {
        lemma_search_finds(967, 0, 779);
    } else if s == 968 {
        lemma_search_finds(968, 0, 487);
    } else if s == 969 {
        lemma_search_finds(969, 0, 110);
    } else if s == 970 {
        lemma_search_finds(970, 0, 269);
    } else if s == 971 {
        lemma_search_finds(971, 0, 319);
    } else if s == 972 {
        lemma_search_finds(972, 0, 191);
    } else if s == 973 {
        lemma_search_finds(973, 0, 325);
    } else if s == 974 {
        lemma_search_finds(974, 0, 151);
    } else if s == 975 {
        lemma_search_finds(975, 0, 419);
    } else if s == 976 {
        lemma_search_finds(976, 0, 463);
    } else if s == 977 {
        lemma_search_finds(977, 0, 260);
    } else if s == 978 {
        lemma_search_finds(978, 0, 323);
    } else if s == 979 {
        lemma_search_finds(979, 0, 487);
    } else if s == 980 {
        lemma_search_finds(980, 0, 619);
    } else if s == 981 {
        lemma_search_finds(981, 0, 416);
    } else if s == 982 {
        lemma_search_finds(982, 0, 637);
    } else if s == 983 {
        lemma_search_finds(983, 0, 151);
    } else if s == 984 {
        lemma_search_finds(984, 0, 335);
    } else if s == 985 {
        lemma_search_finds(985, 0, 169);
    } else if s == 986 {
        lemma_search_finds(986, 0, 875);
    } else if s == 987 {
        lemma_search_finds(987, 0, 227);
    } else if s == 988 {
        lemma_search_finds(988, 0, 471);
    } else if s == 989 {
        lemma_search_finds(989, 0, 311);
    } else if s == 990 {
        lemma_search_finds(990, 0, 839);
    } else if s == 991 {
        lemma_search_finds(991, 0, 822);
    } else if s == 992 {
        lemma_search_finds(992, 0, 63);
    } else if s == 993 {
        lemma_search_finds(993, 0, 86);
    } else if s == 994 {
        lemma_search_finds(994, 0, 899);
    } else if s == 995 {
        lemma_search_finds(995, 0, 904);
    } else if s == 996 {
        lemma_search_finds(996, 0, 95);
    } else if s == 997 {
        lemma_search_finds(997, 0, 205);
    } else if s == 998 {
        lemma_search_finds(998, 0, 567);
    } else if s == 999 {
        lemma_search_finds(999, 0, 272);
    } else if s == 1000 {
        lemma_search_finds(1000, 0, 519);
    }
}

proof fn lemma_sums_1001_to_1020(s: nat)
    requires
        1001 <= s <= 1020,
    ensures
        inverse_search(s, 0) != 0,
{
    if s == 1001 {
        lemma_search_finds(1001, 0, 3);
    } else if s == 1002 {
        lemma_search_finds(1002, 0, 413);
    } else if s == 1003 {
        lemma_search_finds(1003, 0, 467);
    } else if s == 1004 {
        lemma_search_finds(1004, 0, 987);
    } else if s == 1005 {
        lemma_search_finds(1005, 0, 614);
    } else if s == 1006 {
        lemma_search_finds(1006, 0, 89);
    } else if s == 1007 {
        lemma_search_finds(1007, 0, 965);
    } else if s == 1008 {
        lemma_search_finds(1008, 0, 479);
    } else if s == 1009 {
        lemma_search_finds(1009, 0, 623);
    } else if s == 1010 {
        lemma_search_finds(1010, 0, 889);
    } else if s == 1011 {
        lemma_search_finds(1011, 0, 182);
    } else if s == 1012 {
        lemma_search_finds(1012, 0, 311);
    } else if s == 1013 {
        lemma_search_finds(1013, 0, 533);
    } else if s == 1014 {
        lemma_search_finds(1014, 0, 497);
    } else if s == 1015 {
        lemma_search_finds(1015, 0, 759);
    } else if s == 1016 {
        lemma_search_finds(1016, 0, 351);
    } else if s == 1017 {
        lemma_search_finds(1017, 0, 299);
    } else if s == 1018 {
        lemma_search_finds(1018, 0, 425);
    } else if s == 1019 {
        lemma_search_finds(1019, 0, 217);
    } else if s == 1020 {
        lemma_search_finds(1020, 0, 59);
    }
}

/// Every byte sum of a nonzero word has an inverse, found by the search.
pub proof fn lemma_byte_sums_invertible(s: nat)
    requires
        1 <= s <= 1020,
    ensures
        inverse_search(s, 0) != 0,
{
    if s <= 100 {
        lemma_sums_1_to_100(s);
    } else if s <= 200 {
        lemma_sums_101_to_200(s);
    } else if s <= 300 {
        lemma_sums_201_to_300(s);
    } else if s <= 400 {
        lemma_sums_301_to_400(s);
    } else if s <= 500 {
        lemma_sums_401_to_500(s);
    } else if s <= 600 {
        lemma_sums_501_to_600(s);
    } else if s <= 700 {
        lemma_sums_601_to_700(s);
    } else if s <= 800 {
        lemma_sums_701_to_800(s);
    } else if s <= 900 {
        lemma_sums_801_to_900(s);
    } else if s <= 1000 {
        lemma_sums_901_to_1000(s);
    } else {
        lemma_sums_1001_to_1020(s);
    }
}

} // verus!
