//! Blocks whose stored merkle root is known not to match their
//! transactions: an old encoder wrote a malformed `ret` field into some of
//! their transactions (a truncated result, or one written twice), so their
//! canonical re-encoding differs from what was hashed.
use vstd::prelude::*;

verus! {

/// Whether block number `n` is one of the known malformed blocks.
pub open spec fn is_whitelisted(n: i64) -> bool {
    n == 1102553 || n == 1103364 || n == 1103650 || n == 1104274 || n == 1104326 ||
    n == 1104948 || n == 1105494 || n == 1106300 || n == 1106888 || n == 1107730 ||
    n == 1110468 || n == 1110780 || n == 1110832 || n == 1111066 || n == 1111222 ||
    n == 1111430 || n == 1111508 || n == 1111818 || n == 1111896 || n == 1111922 ||
    n == 1111966 || n == 1112021 || n == 1112026 || n == 1112052 || n == 1112078 ||
    n == 1112099 || n == 1112104 || n == 1112122 || n == 1112130 || n == 1112156 ||
    n == 1112564 || n == 1112668 || n == 1112754 || n == 1113222 || n == 1114106 ||
    n == 1114124 || n == 1114205 || n == 1114444 || n == 1114522 || n == 1114548 ||
    n == 1114938 || n == 1115536 || n == 1115640 || n == 1115788 || n == 1115822 ||
    n == 1116264 || n == 1116282 || n == 1116308 || n == 1116386 || n == 1116706 ||
    n == 1116732 || n == 1116758 || n == 1116984 || n == 1117018 || n == 1117460 ||
    n == 1117668 || n == 1117694 || n == 1117928 || n == 1118050 || n == 1118292 ||
    n == 1118370 || n == 1118604 || n == 1118758 || n == 1118810 || n == 1118914 ||
    n == 1118992 || n == 1119408 || n == 1119460 || n == 1119486 || n == 1119642 ||
    n == 1119660 || n == 1119668 || n == 1119772 || n == 1120032 || n == 1120084 ||
    n == 1120136 || n == 1120180 || n == 1120344 || n == 1120370 || n == 1120388 ||
    n == 1120422 || n == 1121124 || n == 1121228 || n == 1121402 || n == 1121696 ||
    n == 1121852 || n == 1122736 || n == 1123022 || n == 1123568 || n == 1123638 ||
    n == 1123750 || n == 1124166 || n == 1124756 || n == 1124990 || n == 1125336 ||
    n == 1125518 || n == 1125750 || n == 1125846 || n == 1126192 || n == 1126314 ||
    n == 1126340 || n == 1126582 || n == 1127128 || n == 1127536 || n == 1128272 ||
    n == 1129000 || n == 1129858 || n == 1129910 || n == 1129962 || n == 1130118 ||
    n == 1130690 || n == 1131028 || n == 1131626 || n == 1132922 || n == 1132941 ||
    n == 1132976 || n == 1133084 || n == 1134406 || n == 1135135 || n == 1135513 ||
    n == 1135675 || n == 1135702 || n == 1135837 || n == 1135918 || n == 1135972
}

/// Looks up block number `n` among the known malformed blocks.
pub fn in_block_whitelist(n: i64) -> (r: bool)
    ensures
        r == is_whitelisted(n),
{
    match n {
        1102553 | 1103364 | 1103650 | 1104274 | 1104326 | 1104948 | 1105494 | 1106300 |
        1106888 | 1107730 | 1110468 | 1110780 | 1110832 | 1111066 | 1111222 | 1111430 |
        1111508 | 1111818 | 1111896 | 1111922 | 1111966 | 1112021 | 1112026 | 1112052 |
        1112078 | 1112099 | 1112104 | 1112122 | 1112130 | 1112156 | 1112564 | 1112668 |
        1112754 | 1113222 | 1114106 | 1114124 | 1114205 | 1114444 | 1114522 | 1114548 |
        1114938 | 1115536 | 1115640 | 1115788 | 1115822 | 1116264 | 1116282 | 1116308 |
        1116386 | 1116706 | 1116732 | 1116758 | 1116984 | 1117018 | 1117460 | 1117668 |
        1117694 | 1117928 | 1118050 | 1118292 | 1118370 | 1118604 | 1118758 | 1118810 |
        1118914 | 1118992 | 1119408 | 1119460 | 1119486 | 1119642 | 1119660 | 1119668 |
        1119772 | 1120032 | 1120084 | 1120136 | 1120180 | 1120344 | 1120370 | 1120388 |
        1120422 | 1121124 | 1121228 | 1121402 | 1121696 | 1121852 | 1122736 | 1123022 |
        1123568 | 1123638 | 1123750 | 1124166 | 1124756 | 1124990 | 1125336 | 1125518 |
        1125750 | 1125846 | 1126192 | 1126314 | 1126340 | 1126582 | 1127128 | 1127536 |
        1128272 | 1129000 | 1129858 | 1129910 | 1129962 | 1130118 | 1130690 | 1131028 |
        1131626 | 1132922 | 1132941 | 1132976 | 1133084 | 1134406 | 1135135 | 1135513 |
        1135675 | 1135702 | 1135837 | 1135918 | 1135972 => true,
        _ => false,
    }
}

} // verus!
