//! Option- and Result-returning helpers around matches and ranges.

use vstd::prelude::*;
use vstd::string::StringSliceAdditionalSpecFns;

verus! {

/// Adds one inside the option, keeping `None` as it is.
pub fn plus_one(x: Option<i32>) -> (r: Option<i32>)
    requires
        x matches Some(i) ==> i < i32::MAX,
    ensures
        x matches Some(i) ==> r == Some((i + 1) as i32),
        x is None ==> r is None,
{
    match x {
        None => None,
        Some(i) => Some(i + 1),
    }
}

/// Sorts a number into one of four magnitude buckets.
pub fn describe_number(x: i32) -> (r: &'static str)
    ensures
        x < 0 ==> r@ == "negative"@,
        x == 0 ==> r@ == "zero"@,
        0 < x < 10 ==> r@ == "small positive"@,
        10 <= x < 100 ==> r@ == "medium positive"@,
        x >= 100 ==> r@ == "large positive"@,
{
    if x < 0 {
        "negative"
    } else if x == 0 {
        "zero"
    } else if x < 10 {
        "small positive"
    } else if x < 100 {
        "medium positive"
    } else {
        "large positive"
    }
}

/// Sorts an age into one of four life stages.
pub fn describe_age(age: u32) -> (r: &'static str)
    ensures
        age <= 12 ==> r@ == "child"@,
        13 <= age <= 19 ==> r@ == "teenager"@,
        20 <= age <= 64 ==> r@ == "adult"@,
        age >= 65 ==> r@ == "senior"@,
{
    if age <= 12 {
        "child"
    } else if age <= 19 {
        "teenager"
    } else if age <= 64 {
        "adult"
    } else {
        "senior"
    }
}

/// Grants access to adults and explains each refusal: a negative age is
/// invalid, and below 18 access is denied.
pub fn check_age(age: i32) -> (r: Result<String, String>)
    ensures
        age < 0 ==> (r matches Err(e) && e@ == "Age cannot be negative"@),
        0 <= age < 18 ==> (r matches Err(e) && e@ == "Must be 18 or older"@),
        age >= 18 ==> (r matches Ok(m) && m@ == "Access granted"@),
{
    if age < 0 {
        Err(String::from_str("Age cannot be negative"))
    } else if age < 18 {
        Err(String::from_str("Must be 18 or older"))
    } else {
        Ok(String::from_str("Access granted"))
    }
}

/// The fixed directory of known users: ids 1, 2 and 3 have ages 25, 30
/// and 18; every other id is unknown.
pub fn get_user_age(user_id: u32) -> (r: Option<u32>)
    ensures
        user_id == 1 ==> r == Some(25u32),
        user_id == 2 ==> r == Some(30u32),
        user_id == 3 ==> r == Some(18u32),
        !(1 <= user_id <= 3) ==> r is None,
{
    match user_id {
        1 => Some(25),
        2 => Some(30),
        3 => Some(18),
        _ => None,
    }
}

/// Whether a known user is at least 21; unknown users map to `None`.
pub fn can_drink(user_id: u32) -> (r: Option<bool>)
    ensures
        user_id == 1 ==> r == Some(true),
        user_id == 2 ==> r == Some(true),
        user_id == 3 ==> r == Some(false),
        !(1 <= user_id <= 3) ==> r is None,
{
    match get_user_age(user_id) {
        Some(age) => Some(age >= 21),
        None => None,
    }
}

/// The sum of the values present in a prefix of `numbers`, ignoring the
/// `None` entries, and whether any value is present in that prefix.
pub open spec fn present_sum(numbers: Seq<Option<i32>>) -> (int, bool)
    decreases numbers.len(),
{
    if numbers.len() == 0 {
        (0, false)
    } else {
        let (s, any) = present_sum(numbers.drop_last());
        match numbers.last() {
            Some(v) => (s + v, true),
            None => (s, any),
        }
    }
}

/// Adds up the values that are present; `None` when no entry holds one.
/// Every partial sum must fit in `i32` — that is the machine limit of
/// the accumulator, nothing more.
pub fn process_numbers(numbers: Vec<Option<i32>>) -> (r: Option<i32>)
    requires
        forall|k: int|
            0 <= k <= numbers@.len() ==> i32::MIN <= (#[trigger] present_sum(
                numbers@.take(k),
            )).0 <= i32::MAX,
    ensures
        ({
            let (s, any) = present_sum(numbers@);
            r == if any {
                Some(s as i32)
            } else {
                None
            }
        }),
{
    let n = numbers.len();
    let mut sum: i32 = 0;
    let mut any = false;
    let mut i: usize = 0;
    while i < n
        invariant
            i <= n,
            n == numbers@.len(),
            present_sum(numbers@.take(i as int)) == (sum as int, any),
            forall|k: int|
                0 <= k <= numbers@.len() ==> i32::MIN <= (#[trigger] present_sum(
                    numbers@.take(k),
                )).0 <= i32::MAX,
        decreases n - i,
    {
        proof {
            assert(numbers@.take(i + 1).drop_last() =~= numbers@.take(i as int));
            assert(numbers@.take(i + 1).last() == numbers@[i as int]);
        }
        match numbers[i] {
            Some(v) => {
                proof {
                    assert(present_sum(numbers@.take(i + 1)) == (sum + v, true));
                }
                sum = sum + v;
                any = true;
            },
            None => {
                proof {
                    assert(present_sum(numbers@.take(i + 1)) == (sum as int, any));
                }
            },
        }
        i = i + 1;
    }
    proof {
        assert(numbers@.take(n as int) =~= numbers@);
    }
    if any {
        Some(sum)
    } else {
        None
    }
}

/// A greeting for the given name, or for a stranger.
pub fn greeting(name: Option<&str>) -> (r: String)
    ensures
        name matches Some(n) ==> r@ == "Hello, "@ + n@ + "!"@,
        name is None ==> r@ == "Hello, stranger!"@,
{
    match name {
        Some(n) => {
            let mut out = String::from_str("Hello, ");
            out.append(n);
            out.append("!");
            out
        },
        None => String::from_str("Hello, stranger!"),
    }
}

/// The fixed configuration directory: "database_url" and "port" are
/// the known keys; any other key is reported back in the error.
pub fn get_config_value(key: &str) -> (r: Result<String, String>)
    ensures
        key@ == "database_url"@ ==> (r matches Ok(v) && v@ == "postgres://localhost"@),
        key@ == "port"@ ==> (r matches Ok(v) && v@ == "8080"@),
        key@ != "database_url"@ && key@ != "port"@ ==> (r matches Err(e) && e@ == "Config key '"@
            + key@ + "' not found"@),
{
    proof {
        reveal_strlit("database_url");
        reveal_strlit("port");
        assert("database_url"@.len() != "port"@.len());
    }
    if crate::cache::str_eq(key, "database_url") {
        Ok(String::from_str("postgres://localhost"))
    } else if crate::cache::str_eq(key, "port") {
        Ok(String::from_str("8080"))
    } else {
        let mut e = String::from_str("Config key '");
        e.append(key);
        e.append("' not found");
        proof {
            assert(e@ =~= "Config key '"@ + key@ + "' not found"@);
        }
        Err(e)
    }
}

/// The longer of two strings, measured in bytes as stored; the second
/// wins ties.
pub fn longest<'a>(x: &'a str, y: &'a str) -> (r: &'a str)
    requires
        x.spec_bytes().len() <= usize::MAX,
        y.spec_bytes().len() <= usize::MAX,
    ensures
        x.spec_bytes().len() > y.spec_bytes().len() ==> r@ == x@,
        x.spec_bytes().len() <= y.spec_bytes().len() ==> r@ == y@,
{
    if x.len() > y.len() {
        x
    } else {
        y
    }
}

} // verus!
