//! The fixed log phrases built around decimal renderings of arena
//! statistics, and the decimal rendering itself.

use vstd::prelude::*;
use vstd::string::StringExecFns;

verus! {

/// The character for one decimal digit.
pub open spec fn digit_char(d: nat) -> char {
    if d == 0 {
        '0'
    } else if d == 1 {
        '1'
    } else if d == 2 {
        '2'
    } else if d == 3 {
        '3'
    } else if d == 4 {
        '4'
    } else if d == 5 {
        '5'
    } else if d == 6 {
        '6'
    } else if d == 7 {
        '7'
    } else if d == 8 {
        '8'
    } else {
        '9'
    }
}

/// The decimal digits of `n`, most significant first, with no leading zero
/// except for `n == 0` itself.
pub open spec fn spec_decimal(n: nat) -> Seq<char>
    decreases n,
{
    if n < 10 {
        seq![digit_char(n)]
    } else {
        spec_decimal(n / 10).push(digit_char(n % 10))
    }
}

/// The one-character string for a decimal digit.
fn digit_str(d: usize) -> (s: &'static str)
    requires
        d < 10,
    ensures
        s@ == seq![digit_char(d as nat)],
{
    proof {
        reveal_strlit("0");
        reveal_strlit("1");
        reveal_strlit("2");
        reveal_strlit("3");
        reveal_strlit("4");
        reveal_strlit("5");
        reveal_strlit("6");
        reveal_strlit("7");
        reveal_strlit("8");
        reveal_strlit("9");
    }
    let s = if d == 0 {
        "0"
    } else if d == 1 {
        "1"
    } else if d == 2 {
        "2"
    } else if d == 3 {
        "3"
    } else if d == 4 {
        "4"
    } else if d == 5 {
        "5"
    } else if d == 6 {
        "6"
    } else if d == 7 {
        "7"
    } else if d == 8 {
        "8"
    } else {
        "9"
    };
    proof {
        assert(s@ =~= seq![digit_char(d as nat)]);
    }
    s
}

/// Renders `n` in decimal.
pub fn usize_to_string(n: usize) -> (r: String)
    ensures
        r@ == spec_decimal(n as nat),
    decreases n,
{
    if n < 10 {
        let mut r = String::new();
        r.append(digit_str(n));
        proof {
            assert(r@ =~= seq![digit_char(n as nat)]);
        }
        r
    } else {
        let mut r = usize_to_string(n / 10);
        r.append(digit_str(n % 10));
        proof {
            assert(r@ =~= spec_decimal((n / 10) as nat).push(digit_char((n % 10) as nat)));
        }
        r
    }
}

/// The phrase logged after a run of bytes is stored: its length, the address
/// it landed at, and a trailing newline.
pub fn log_storage_amount(stored_bytes_length: usize, stored_bytes_address: usize) -> (r: String)
    ensures
        r@ == spec_decimal(stored_bytes_length as nat) + " bytes stored at "@ + spec_decimal(
            stored_bytes_address as nat,
        ) + " in temporary storage\n"@,
{
    let mut log_message: String = usize_to_string(stored_bytes_length);
    log_message.append(" bytes stored at ");
    let address_text = usize_to_string(stored_bytes_address);
    log_message.append(address_text.as_str());
    log_message.append(" in temporary storage\n");
    proof {
        assert(log_message@ =~= spec_decimal(stored_bytes_length as nat) + " bytes stored at "@
            + spec_decimal(stored_bytes_address as nat) + " in temporary storage\n"@);
    }
    log_message
}

/// The phrase logged for the arena's current occupancy, with a trailing
/// newline.
pub fn log_total_stored_in_storage(storage_occupied: usize) -> (r: String)
    ensures
        r@ == "Total stored in temporary storage: "@ + spec_decimal(storage_occupied as nat)
            + "\n"@,
{
    let mut log_message = String::new();
    log_message.append("Total stored in temporary storage: ");
    let occupied_text = usize_to_string(storage_occupied);
    log_message.append(occupied_text.as_str());
    log_message.append("\n");
    proof {
        assert(log_message@ =~= "Total stored in temporary storage: "@ + spec_decimal(
            storage_occupied as nat,
        ) + "\n"@);
    }
    log_message
}

} // verus!
