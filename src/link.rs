//! The compact form of banners and goals that shareable links carry: a byte
//! layout of the library's own, written in base64.
use vstd::prelude::*;
use base64::DecodeError;
use crate::banner::{Banner, PityModel};
use crate::goal::{CustomGoal, Goal, GoalKind, GoalPart, GoalPreset, GoalView};
use crate::item::ItemType;

verus! {

#[verifier::external_type_specification]
#[verifier::external_body]
pub struct ExDecodeError(DecodeError);

/// The standard, padded base64 text of `bytes`.
pub uninterp spec fn base64_of(bytes: Seq<u8>) -> Seq<char>;

/// The bytes that standard base64 text `text` stands for, if it is well formed.
pub uninterp spec fn base64_decoded(text: Seq<char>) -> Option<Seq<u8>>;

/// Relies on `base64::encode`: the standard, padded base64 text of the bytes,
/// which depends on the bytes alone.
#[verifier::external_body]
fn base64_encode(bytes: &[u8]) -> (r: String)
    ensures
        r@ == base64_of(bytes@),
{
    base64::encode(bytes)
}

/// Relies on `base64::decode`: the bytes of standard base64 text, or an error
/// for malformed text; either depends on the text alone.
#[verifier::external_body]
fn base64_decode(text: &str) -> (r: Result<Vec<u8>, DecodeError>)
    ensures
        match r {
            Ok(v) => base64_decoded(text@) == Some(v@),
            Err(_) => base64_decoded(text@) is None,
        },
{
    base64::decode(text)
}

pub open spec fn i8_byte(x: i8) -> u8 {
    if x >= 0 {
        x as u8
    } else {
        (x + 256) as u8
    }
}

pub open spec fn low_byte(v: u16) -> u8 {
    (v % 256) as u8
}

pub open spec fn high_byte(v: u16) -> u8 {
    (v / 256) as u8
}

pub open spec fn bool_byte(b: bool) -> u8 {
    if b {
        1
    } else {
        0
    }
}

/// The pity model: a tag, then the soft/hard parameters where there are any.
pub open spec fn pity_bytes(m: PityModel) -> Seq<u8> {
    match m {
        PityModel::Escalating => seq![0u8],
        PityModel::SoftHard { soft_pity, hard_pity, soft_rate } => seq![
            1u8,
            low_byte(soft_pity),
            high_byte(soft_pity),
            low_byte(hard_pity),
            high_byte(hard_pity),
            low_byte(soft_rate),
            high_byte(soft_rate),
        ],
    }
}

impl Banner {
    /// The banner's bytes: focus sizes (two's complement), then each number
    /// little-endian in field order, the two flags, and the pity model.
    pub open spec fn bytes(self) -> Seq<u8> {
        seq![
            i8_byte(self.focus_sizes[0]),
            i8_byte(self.focus_sizes[1]),
            i8_byte(self.focus_sizes[2]),
            i8_byte(self.focus_sizes[3]),
            low_byte(self.five_rate),
            high_byte(self.five_rate),
            low_byte(self.four_rate),
            high_byte(self.four_rate),
            self.split_rates.0,
            self.split_rates.1,
            low_byte(self.five_pity),
            high_byte(self.five_pity),
            low_byte(self.four_pity),
            high_byte(self.four_pity),
            bool_byte(self.epitomized_path),
            bool_byte(self.capturing_radiance),
        ] + pity_bytes(self.pity_model)
    }
}

/// The banner whose bytes are `s`, if any.
pub open spec fn banner_decoded(s: Seq<u8>) -> Option<Banner> {
    if exists|b: Banner| b.bytes() == s {
        Some(choose|b: Banner| b.bytes() == s)
    } else {
        None
    }
}

proof fn lemma_i8_byte(x: i8, y: i8)
    requires
        i8_byte(x) == i8_byte(y),
    ensures
        x == y,
{
}

proof fn lemma_u16_bytes(x: u16, y: u16)
    requires
        low_byte(x) == low_byte(y),
        high_byte(x) == high_byte(y),
    ensures
        x == y,
{
}

/// Distinct banners have distinct bytes.
pub proof fn lemma_banner_bytes_injective(a: Banner, b: Banner)
    requires
        a.bytes() == b.bytes(),
    ensures
        a == b,
{
    let (s, t) = (a.bytes(), b.bytes());
    assert forall|i: int| 0 <= i < 4 implies a.focus_sizes[i] == b.focus_sizes[i] by {
        assert(s[i] == t[i]);
        lemma_i8_byte(a.focus_sizes[i], b.focus_sizes[i]);
    }
    assert(a.focus_sizes =~= b.focus_sizes);
    assert(s[4] == t[4] && s[5] == t[5]);
    lemma_u16_bytes(a.five_rate, b.five_rate);
    assert(s[6] == t[6] && s[7] == t[7]);
    lemma_u16_bytes(a.four_rate, b.four_rate);
    assert(s[8] == t[8] && s[9] == t[9]);
    assert(s[10] == t[10] && s[11] == t[11]);
    lemma_u16_bytes(a.five_pity, b.five_pity);
    assert(s[12] == t[12] && s[13] == t[13]);
    lemma_u16_bytes(a.four_pity, b.four_pity);
    assert(s[14] == t[14] && s[15] == t[15] && s[16] == t[16]);
    match (a.pity_model, b.pity_model) {
        (
            PityModel::SoftHard { soft_pity: p1, hard_pity: h1, soft_rate: r1 },
            PityModel::SoftHard { soft_pity: p2, hard_pity: h2, soft_rate: r2 },
        ) => {
            assert(s[17] == t[17] && s[18] == t[18]);
            lemma_u16_bytes(p1, p2);
            assert(s[19] == t[19] && s[20] == t[20]);
            lemma_u16_bytes(h1, h2);
            assert(s[21] == t[21] && s[22] == t[22]);
            lemma_u16_bytes(r1, r2);
        },
        _ => {},
    }
}

/// Decoding a banner's bytes gives the banner back.
pub proof fn lemma_banner_decoded(b: Banner)
    ensures
        banner_decoded(b.bytes()) == Some(b),
{
    let c = choose|c: Banner| c.bytes() == b.bytes();
    lemma_banner_bytes_injective(c, b);
}

fn i8_to_byte(x: i8) -> (r: u8)
    ensures
        r == i8_byte(x),
{
    if x >= 0 {
        x as u8
    } else {
        (x as i16 + 256) as u8
    }
}

fn byte_to_i8(b: u8) -> (r: i8)
    ensures
        i8_byte(r) == b,
{
    if b < 128 {
        b as i8
    } else {
        (b as i16 - 256) as i8
    }
}

fn push_u16(out: &mut Vec<u8>, v: u16)
    ensures
        final(out)@ == old(out)@ + seq![low_byte(v), high_byte(v)],
{
    out.push((v % 256) as u8);
    out.push((v / 256) as u8);
    assert(out@ =~= old(out)@ + seq![low_byte(v), high_byte(v)]);
}

fn push_le64(out: &mut Vec<u8>, v: u64)
    ensures
        final(out)@ == old(out)@ + le_bytes(v as nat, 8),
{
    let mut rest = v;
    let mut k: usize = 0;
    while k < 8
        invariant
            k <= 8,
            out@ + le_bytes(rest as nat, (8 - k) as nat) == old(out)@ + le_bytes(v as nat, 8),
        decreases 8 - k,
    {
        let ghost before = out@;
        out.push((rest % 256) as u8);
        assert(le_bytes(rest as nat, (8 - k) as nat) == seq![(rest % 256) as u8] + le_bytes(
            (rest / 256) as nat,
            (8 - k - 1) as nat,
        ));
        assert(out@ + le_bytes((rest / 256) as nat, (8 - k - 1) as nat) =~= before + le_bytes(
            rest as nat,
            (8 - k) as nat,
        ));
        rest = rest / 256;
        k += 1;
    }
    assert(le_bytes(rest as nat, 0) =~= Seq::<u8>::empty());
    assert(out@ =~= out@ + le_bytes(rest as nat, 0));
}

fn read_u16(lo: u8, hi: u8) -> (r: u16)
    ensures
        low_byte(r) == lo,
        high_byte(r) == hi,
{
    lo as u16 + hi as u16 * 256
}

impl Banner {
    /// Encodes the banner in the link byte layout.
    pub fn to_bytes(&self) -> (r: Vec<u8>)
        ensures
            r@ == self.bytes(),
    {
        let mut out: Vec<u8> = Vec::new();
        out.push(i8_to_byte(self.focus_sizes[0]));
        out.push(i8_to_byte(self.focus_sizes[1]));
        out.push(i8_to_byte(self.focus_sizes[2]));
        out.push(i8_to_byte(self.focus_sizes[3]));
        push_u16(&mut out, self.five_rate);
        push_u16(&mut out, self.four_rate);
        out.push(self.split_rates.0);
        out.push(self.split_rates.1);
        push_u16(&mut out, self.five_pity);
        push_u16(&mut out, self.four_pity);
        out.push(if self.epitomized_path { 1 } else { 0 });
        out.push(if self.capturing_radiance { 1 } else { 0 });
        match self.pity_model {
            PityModel::Escalating => out.push(0),
            PityModel::SoftHard { soft_pity, hard_pity, soft_rate } => {
                out.push(1);
                push_u16(&mut out, soft_pity);
                push_u16(&mut out, hard_pity);
                push_u16(&mut out, soft_rate);
            },
        }
        assert(out@ =~= self.bytes());
        out
    }

    /// Decodes the link byte layout; bytes that no banner encodes to, such as a
    /// truncated or extended encoding, give `None`.
    pub fn from_bytes(bytes: &[u8]) -> (r: Option<Banner>)
        ensures
            r == banner_decoded(bytes@),
    {
        let n = bytes.len();
        if n != 17 && n != 23 {
            assert forall|b: Banner| #[trigger] b.bytes() != bytes@ by {
                assert(b.bytes().len() == 17 || b.bytes().len() == 23);
            }
            return None;
        }
        if bytes[14] > 1 || bytes[15] > 1 || (n == 17 && bytes[16] != 0) || (n == 23 && bytes[16]
            != 1) {
            assert forall|b: Banner| #[trigger] b.bytes() != bytes@ by {
                if b.bytes() == bytes@ {
                    assert(b.bytes()[14] == bool_byte(b.epitomized_path));
                    assert(b.bytes()[15] == bool_byte(b.capturing_radiance));
                    assert(b.bytes()[16] == pity_bytes(b.pity_model)[0]);
                }
            }
            return None;
        }
        let pity_model = if n == 17 {
            PityModel::Escalating
        } else {
            PityModel::SoftHard {
                soft_pity: read_u16(bytes[17], bytes[18]),
                hard_pity: read_u16(bytes[19], bytes[20]),
                soft_rate: read_u16(bytes[21], bytes[22]),
            }
        };
        let b = Banner {
            focus_sizes: [
                byte_to_i8(bytes[0]),
                byte_to_i8(bytes[1]),
                byte_to_i8(bytes[2]),
                byte_to_i8(bytes[3]),
            ],
            five_rate: read_u16(bytes[4], bytes[5]),
            four_rate: read_u16(bytes[6], bytes[7]),
            split_rates: (bytes[8], bytes[9]),
            five_pity: read_u16(bytes[10], bytes[11]),
            four_pity: read_u16(bytes[12], bytes[13]),
            epitomized_path: bytes[14] == 1,
            capturing_radiance: bytes[15] == 1,
            pity_model,
        };
        assert(b.bytes() =~= bytes@);
        proof {
            lemma_banner_decoded(b);
        }
        Some(b)
    }

    /// Encodes the banner for a shareable link.
    pub fn to_query_string(&self) -> (r: String)
        ensures
            r@ == base64_of(self.bytes()),
    {
        let bytes = self.to_bytes();
        base64_encode(bytes.as_slice())
    }

    /// Parses data from the representation used in query strings to share settings.
    pub fn from_query_string(s: &str) -> (r: Option<Self>)
        ensures
            r == match base64_decoded(s@) {
                Some(bytes) => banner_decoded(bytes),
                None => None,
            },
    {
        match base64_decode(s) {
            Ok(bytes) => Banner::from_bytes(bytes.as_slice()),
            Err(_) => None,
        }
    }
}

pub open spec fn kind_byte(k: GoalKind) -> u8 {
    match k {
        GoalKind::Any => 0,
        GoalKind::All => 1,
    }
}

/// A part: its category, its copies, its tier flag.
pub open spec fn part_bytes(p: GoalPart) -> Seq<u8> {
    seq![p.item_type.index_of() as u8, p.num_copies, bool_byte(p.four_star)]
}

pub open spec fn parts_bytes(parts: Seq<GoalPart>) -> Seq<u8>
    decreases parts.len(),
{
    if parts.len() == 0 {
        Seq::empty()
    } else {
        parts_bytes(parts.drop_last()) + part_bytes(parts.last())
    }
}

/// The `k` low bytes of `n`, least significant first.
pub open spec fn le_bytes(n: nat, k: nat) -> Seq<u8>
    decreases k,
{
    if k == 0 {
        Seq::empty()
    } else {
        seq![(n % 256) as u8] + le_bytes(n / 256, (k - 1) as nat)
    }
}

proof fn lemma_le_bytes_len(n: nat, k: nat)
    ensures
        le_bytes(n, k).len() == k,
    decreases k,
{
    if k > 0 {
        lemma_le_bytes_len(n / 256, (k - 1) as nat);
    }
}

/// The start of a custom goal: tag 0, its kind, and its number of parts in
/// eight little-endian bytes.
pub open spec fn custom_header(kind: GoalKind, count: nat) -> Seq<u8> {
    seq![0u8, kind_byte(kind)] + le_bytes(count, 8)
}

impl GoalView {
    /// A custom goal is its header and its parts, three bytes each; a preset
    /// is tag 1, its position and its count.
    pub open spec fn bytes(self) -> Seq<u8> {
        match self {
            GoalView::Custom(c) => custom_header(c.kind, c.parts.len()) + parts_bytes(c.parts),
            GoalView::Preset(p, n) => seq![1u8, p.index_of() as u8, n],
        }
    }
}

/// The goal whose bytes are `s`, if any.
pub open spec fn goal_decoded(s: Seq<u8>) -> Option<GoalView> {
    if exists|g: GoalView| g.bytes() == s {
        Some(choose|g: GoalView| g.bytes() == s)
    } else {
        None
    }
}

proof fn lemma_parts_bytes(parts: Seq<GoalPart>)
    ensures
        parts_bytes(parts).len() == 3 * parts.len(),
        forall|i: int, k: int|
            0 <= i < parts.len() && 0 <= k < 3 ==> #[trigger] parts_bytes(parts)[3 * i + k]
                == part_bytes(parts[i])[k],
    decreases parts.len(),
{
    if parts.len() > 0 {
        let init = parts.drop_last();
        lemma_parts_bytes(init);
        assert forall|i: int, k: int|
            0 <= i < parts.len() && 0 <= k < 3 implies #[trigger] parts_bytes(parts)[3 * i + k]
            == part_bytes(parts[i])[k] by {
            if i < init.len() {
                assert(parts_bytes(init)[3 * i + k] == part_bytes(init[i])[k]);
            }
        }
    }
}

proof fn lemma_part_bytes_injective(a: GoalPart, b: GoalPart)
    requires
        part_bytes(a) == part_bytes(b),
    ensures
        a == b,
{
    assert(part_bytes(a)[0] == part_bytes(b)[0]);
    assert(part_bytes(a)[1] == part_bytes(b)[1]);
    assert(part_bytes(a)[2] == part_bytes(b)[2]);
}

/// Distinct goals have distinct bytes.
pub proof fn lemma_goal_bytes_injective(a: GoalView, b: GoalView)
    requires
        a.bytes() == b.bytes(),
    ensures
        a == b,
{
    let (s, t) = (a.bytes(), b.bytes());
    assert(s[0] == t[0]);
    match (a, b) {
        (GoalView::Custom(c), GoalView::Custom(d)) => {
            assert(s[1] == t[1]);
            lemma_parts_bytes(c.parts);
            lemma_parts_bytes(d.parts);
            lemma_le_bytes_len(c.parts.len(), 8);
            lemma_le_bytes_len(d.parts.len(), 8);
            assert(s.len() == 10 + 3 * c.parts.len());
            assert(c.parts.len() == d.parts.len());
            assert forall|i: int| 0 <= i < c.parts.len() implies c.parts[i] == d.parts[i] by {
                assert forall|k: int| 0 <= k < 3 implies part_bytes(c.parts[i])[k] == part_bytes(
                    d.parts[i],
                )[k] by {
                    assert(s[10 + (3 * i + k)] == t[10 + (3 * i + k)]);
                    assert(parts_bytes(c.parts)[3 * i + k] == parts_bytes(d.parts)[3 * i + k]);
                }
                assert(part_bytes(c.parts[i]) =~= part_bytes(d.parts[i]));
                lemma_part_bytes_injective(c.parts[i], d.parts[i]);
            }
            assert(c.parts =~= d.parts);
        },
        (GoalView::Preset(p, n), GoalView::Preset(q, m)) => {
            assert(s[1] == t[1] && s[2] == t[2]);
        },
        _ => {},
    }
}

/// Decoding a goal's bytes gives the goal back.
pub proof fn lemma_goal_decoded(g: GoalView)
    ensures
        goal_decoded(g.bytes()) == Some(g),
{
    let c = choose|c: GoalView| c.bytes() == g.bytes();
    lemma_goal_bytes_injective(c, g);
}

impl Goal {
    /// Encodes the goal in the link byte layout.
    pub fn to_bytes(&self) -> (r: Vec<u8>)
        ensures
            r@ == self@.bytes(),
    {
        let mut out: Vec<u8> = Vec::new();
        match self {
            Goal::Preset(p, n) => {
                out.push(1);
                out.push(p.index());
                out.push(*n);
                assert(out@ =~= self@.bytes());
            },
            Goal::Custom(c) => {
                out.push(0);
                out.push(
                    match c.kind {
                        GoalKind::Any => 0,
                        GoalKind::All => 1,
                    },
                );
                push_le64(&mut out, c.goals.len() as u64);
                assert(out@ =~= custom_header(c.kind, c.goals@.len()));
                let mut i: usize = 0;
                while i < c.goals.len()
                    invariant
                        i <= c.goals@.len(),
                        out@ == custom_header(c.kind, c.goals@.len()) + parts_bytes(
                            c.goals@.subrange(0, i as int),
                        ),
                    decreases c.goals@.len() - i,
                {
                    let part = c.goals[i];
                    out.push(part.item_type.index() as u8);
                    out.push(part.num_copies);
                    out.push(if part.four_star { 1 } else { 0 });
                    let ghost next = c.goals@.subrange(0, i + 1);
                    assert(next.drop_last() =~= c.goals@.subrange(0, i as int));
                    i += 1;
                    assert(out@ =~= custom_header(c.kind, c.goals@.len()) + parts_bytes(next));
                }
                assert(c.goals@.subrange(0, i as int) =~= c.goals@);
            },
        }
        out
    }

    /// Decodes the link byte layout; bytes that no goal encodes to give `None`.
    pub fn from_bytes(bytes: &[u8]) -> (r: Option<Goal>)
        ensures
            match r {
                Some(g) => goal_decoded(bytes@) == Some(g@),
                None => goal_decoded(bytes@) is None,
            },
    {
        let n = bytes.len();
        if n < 2 {
            assert forall|g: GoalView| #[trigger] g.bytes() != bytes@ by {
                if let GoalView::Custom(c) = g {
                    lemma_parts_bytes(c.parts);
                }
            }
            return None;
        }
        if bytes[0] == 1 {
            let preset = GoalPreset::from_u8(bytes[1]);
            if n != 3 || preset.is_none() {
                assert forall|g: GoalView| #[trigger] g.bytes() != bytes@ by {
                    if g.bytes() == bytes@ {
                        assert(g.bytes()[0] == 1);
                        if let GoalView::Preset(p, m) = g {
                            assert(g.bytes()[1] == p.index_of());
                        }
                    }
                }
                return None;
            }
            let g = Goal::Preset(preset.unwrap(), bytes[2]);
            assert(g@.bytes() =~= bytes@);
            proof {
                lemma_goal_decoded(g@);
            }
            return Some(g);
        }
        let kind = if bytes[1] == 0 {
            GoalKind::Any
        } else {
            GoalKind::All
        };
        if bytes[0] != 0 || bytes[1] > 1 || n < 10 || (n - 10) % 3 != 0 {
            assert forall|g: GoalView| #[trigger] g.bytes() != bytes@ by {
                if g.bytes() == bytes@ {
                    if let GoalView::Custom(c) = g {
                        lemma_parts_bytes(c.parts);
                        lemma_le_bytes_len(c.parts.len(), 8);
                        assert(g.bytes()[0] == 0);
                        assert(g.bytes()[1] == kind_byte(c.kind));
                    }
                }
            }
            return None;
        }
        let count = (n - 10) / 3;
        let mut expected: Vec<u8> = Vec::new();
        push_le64(&mut expected, count as u64);
        proof {
            lemma_le_bytes_len(count as nat, 8);
        }
        let mut j: usize = 0;
        while j < 8
            invariant
                n == bytes@.len(),
                count * 3 + 10 == n,
                expected@ == le_bytes(count as nat, 8),
                expected@.len() == 8,
                j <= 8,
                forall|k: int| 0 <= k < j ==> bytes@[2 + k] == #[trigger] expected@[k],
            decreases 8 - j,
        {
            if bytes[2 + j] != expected[j] {
                assert forall|g: GoalView| #[trigger] g.bytes() != bytes@ by {
                    if g.bytes() == bytes@ {
                        if let GoalView::Custom(c) = g {
                            lemma_parts_bytes(c.parts);
                            lemma_le_bytes_len(c.parts.len(), 8);
                            assert(c.parts.len() == count);
                            assert(g.bytes()[2 + j] == le_bytes(c.parts.len(), 8)[j as int]);
                        } else {
                            assert(g.bytes().len() == 3);
                        }
                    }
                }
                return None;
            }
            j += 1;
        }
        assert(bytes@.subrange(0, 10) =~= custom_header(kind, count as nat));
        let mut goals: Vec<GoalPart> = Vec::new();
        let mut i: usize = 0;
        while i < count
            invariant
                n == bytes@.len(),
                count * 3 + 10 == n,
                i <= count,
                goals@.len() == i,
                parts_bytes(goals@) == bytes@.subrange(10, 10 + 3 * i),
            decreases count - i,
        {
            let at = 10 + 3 * i;
            let item = ItemType::from_u8(bytes[at]);
            if item.is_none() || bytes[at + 2] > 1 {
                assert forall|g: GoalView| #[trigger] g.bytes() != bytes@ by {
                    if g.bytes() == bytes@ {
                        if let GoalView::Custom(c) = g {
                            lemma_parts_bytes(c.parts);
                            lemma_le_bytes_len(c.parts.len(), 8);
                            assert(c.parts.len() == count);
                            assert(parts_bytes(c.parts)[3 * i + 0] == part_bytes(c.parts[i as int])[0]);
                            assert(parts_bytes(c.parts)[3 * i + 2] == part_bytes(c.parts[i as int])[2]);
                            assert(g.bytes()[10 + (3 * i + 0)] == parts_bytes(c.parts)[3 * i + 0]);
                            assert(g.bytes()[10 + (3 * i + 2)] == parts_bytes(c.parts)[3 * i + 2]);
                        } else {
                            assert(g.bytes().len() == 3);
                        }
                    }
                }
                return None;
            }
            let part = GoalPart {
                item_type: item.unwrap(),
                num_copies: bytes[at + 1],
                four_star: bytes[at + 2] == 1,
            };
            let ghost prev = goals@;
            goals.push(part);
            assert(goals@.drop_last() =~= prev);
            assert(part_bytes(part) =~= bytes@.subrange(at as int, at + 3));
            assert(bytes@.subrange(10, 10 + 3 * (i + 1)) =~= bytes@.subrange(10, 10 + 3 * i)
                + bytes@.subrange(at as int, at + 3));
            i += 1;
        }
        assert(bytes@ =~= bytes@.subrange(0, 10) + bytes@.subrange(10, 10 + 3 * count));
        let g = Goal::Custom(CustomGoal { kind, goals });
        assert(g@.bytes() == custom_header(kind, count as nat) + parts_bytes(goals@));
        proof {
            lemma_goal_decoded(g@);
        }
        Some(g)
    }

    /// Encodes the goal for a shareable link.
    pub fn to_query_string(&self) -> (r: String)
        ensures
            r@ == base64_of(self@.bytes()),
    {
        let bytes = self.to_bytes();
        base64_encode(bytes.as_slice())
    }

    /// Parses data from the representation used in query strings to share settings.
    pub fn from_query_string(s: &str) -> (r: Option<Self>)
        ensures
            match r {
                Some(g) => base64_decoded(s@) matches Some(bytes) && goal_decoded(bytes) == Some(
                    g@,
                ),
                None => base64_decoded(s@) matches Some(bytes) ==> goal_decoded(bytes) is None,
            },
    {
        match base64_decode(s) {
            Ok(bytes) => Goal::from_bytes(bytes.as_slice()),
            Err(_) => None,
        }
    }
}

} // verus!
