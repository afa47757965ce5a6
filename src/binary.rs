use vstd::prelude::*;

verus! {

/// Number of leading bytes of a packet shown in a preview.
pub const MAX_PREVIEW_BYTES: usize = 24;

/// The uppercase hex digit of a value below 16.
pub open spec fn hex_digit(d: nat) -> char
    recommends
        d < 16,
{
    seq!['0', '1', '2', '3', '4', '5', '6', '7', '8', '9', 'A', 'B', 'C', 'D', 'E', 'F'][d as int]
}

/// The two-digit uppercase hex form of a byte.
pub open spec fn byte_hex(b: u8) -> Seq<char> {
    seq![hex_digit(b as nat / 16), hex_digit(b as nat % 16)]
}

/// What stands before the `i`-th byte of a preview: nothing before the first,
/// two spaces before each byte that opens a group of four, one space otherwise.
pub open spec fn separator(i: nat) -> Seq<char> {
    if i == 0 {
        Seq::empty()
    } else if i % 4 == 0 {
        seq![' ', ' ']
    } else {
        seq![' ']
    }
}

/// The hex rendering of the first `k` bytes of `data`.
pub open spec fn hex_prefix(data: Seq<u8>, k: nat) -> Seq<char>
    decreases k,
{
    if k == 0 {
        Seq::empty()
    } else {
        hex_prefix(data, (k - 1) as nat) + separator((k - 1) as nat) + byte_hex(
            data[k - 1],
        )
    }
}

/// The decimal digit of a value below 10.
pub open spec fn decimal_digit(d: nat) -> char
    recommends
        d < 10,
{
    seq!['0', '1', '2', '3', '4', '5', '6', '7', '8', '9'][d as int]
}

/// The decimal form of `n`, without leading zeros.
pub open spec fn decimal(n: nat) -> Seq<char>
    decreases n,
{
    if n < 10 {
        seq![decimal_digit(n)]
    } else {
        decimal(n / 10) + seq![decimal_digit(n % 10)]
    }
}

/// How many bytes of a packet of `len` bytes a preview shows.
pub open spec fn preview_len(len: nat) -> nat {
    if len < MAX_PREVIEW_BYTES {
        len
    } else {
        MAX_PREVIEW_BYTES as nat
    }
}

/// The suffix that counts the bytes a preview leaves out.
pub open spec fn omitted_suffix(rest: nat) -> Seq<char> {
    seq![' ', '.', '.', '.', ' ', '+'] + decimal(rest) + seq![' ', 'b', 'y', 't', 'e', 's']
}

/// The preview of a packet: the hex of its first bytes, then, when bytes are
/// left out, how many.
pub open spec fn packet_string(data: Seq<u8>) -> Seq<char> {
    let shown = preview_len(data.len());
    if shown < data.len() {
        hex_prefix(data, shown) + omitted_suffix((data.len() - shown) as nat)
    } else {
        hex_prefix(data, shown)
    }
}

fn hex_digit_str(d: u8) -> (r: &'static str)
    requires
        d < 16,
    ensures
        r@ == seq![hex_digit(d as nat)],
{
    proof {
        reveal_strlit("0");
        reveal_strlit("1");
        reveal_strlit("2");
        reveal_strlit("3");
        reveal_strlit("4");
        reveal_strlit("5");
        reveal_strlit("6");
        reveal_strlit("7");
        reveal_strlit("8");
        reveal_strlit("9");
        reveal_strlit("A");
        reveal_strlit("B");
        reveal_strlit("C");
        reveal_strlit("D");
        reveal_strlit("E");
        reveal_strlit("F");
    }
    match d {
        0 => "0",
        1 => "1",
        2 => "2",
        3 => "3",
        4 => "4",
        5 => "5",
        6 => "6",
        7 => "7",
        8 => "8",
        9 => "9",
        10 => "A",
        11 => "B",
        12 => "C",
        13 => "D",
        14 => "E",
        _ => "F",
    }
}

fn append_decimal(s: &mut String, n: usize)
    ensures
        final(s)@ == old(s)@ + decimal(n as nat),
    decreases n,
{
    if n >= 10 {
        append_decimal(s, n / 10);
    }
    let d: u8 = (n % 10) as u8;
    s.append(hex_digit_str(d));
    assert(final(s)@ == old(s)@ + decimal(n as nat));
}

/// Renders the first bytes of `data` (at most [`MAX_PREVIEW_BYTES`]) as
/// uppercase hex pairs, one space between the bytes of a group of four and
/// two between groups, followed by ` ... +N bytes` when `N` bytes are left out.
pub fn build_packet_string(data: &[u8]) -> (r: String)
    ensures
        r@ == packet_string(data@),
{
    let mut s = String::new();
    let limit: usize = if data.len() < MAX_PREVIEW_BYTES {
        data.len()
    } else {
        MAX_PREVIEW_BYTES
    };
    let mut i: usize = 0;
    while i < limit
        invariant
            limit == preview_len(data@.len()),
            limit <= data@.len(),
            i <= limit,
            s@ == hex_prefix(data@, i as nat),
        decreases limit - i,
    {
        if i != 0 {
            if i % 4 == 0 {
                s.append("  ");
                proof {
                    reveal_strlit("  ");
                }
            } else {
                s.append(" ");
                proof {
                    reveal_strlit(" ");
                }
            }
        }
        let byte = data[i];
        s.append(hex_digit_str(byte / 16));
        s.append(hex_digit_str(byte % 16));
        assert(s@ == hex_prefix(data@, (i + 1) as nat));
        i = i + 1;
    }
    if limit < data.len() {
        s.append(" ... +");
        append_decimal(&mut s, data.len() - limit);
        s.append(" bytes");
        proof {
            reveal_strlit(" ... +");
            reveal_strlit(" bytes");
        }
        assert(s@ == packet_string(data@));
    }
    s
}

} // verus!
