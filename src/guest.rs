use vstd::prelude::*;
use vstd::string::StringExecFns;

verus! {

/// The Fibonacci numbers counted from `fib(0) == fib(1) == 1`.
pub open spec fn fib(n: nat) -> nat
    decreases n,
{
    if n < 2 {
        1
    } else {
        fib((n - 1) as nat) + fib((n - 2) as nat)
    }
}

/// The Fibonacci numbers never decrease.
pub proof fn lemma_fib_grows(i: nat, j: nat)
    requires
        i <= j,
    ensures
        fib(i) <= fib(j),
    decreases j - i,
{
    if i < j {
        lemma_fib_grows(i, (j - 1) as nat);
        if j >= 2 {
            assert(fib(j) == fib((j - 1) as nat) + fib((j - 2) as nat));
        }
    }
}

/// The Fibonacci guest's computation: `fib(n + 1)`, or `None` when that
/// number does not fit in 32 bits, in place of an overflow.
pub fn fibonacci(n: u32) -> (r: Option<u32>)
    ensures
        fib((n + 1) as nat) <= u32::MAX ==> r == Some(fib((n + 1) as nat) as u32),
        fib((n + 1) as nat) > u32::MAX ==> r is None,
{
    let mut a: u32 = 1;
    let mut b: u32 = 1;
    let mut i: u32 = 0;
    while i < n
        invariant
            i <= n,
            a == fib(i as nat),
            b == fib((i + 1) as nat),
        decreases n - i,
    {
        assert(fib((i + 2) as nat) == fib((i + 1) as nat) + fib(i as nat));
        let next = match b.checked_add(a) {
            Some(x) => x,
            None => {
                proof {
                    lemma_fib_grows((i + 2) as nat, (n + 1) as nat);
                }
                return None;
            },
        };
        a = b;
        b = next;
        i = i + 1;
    }
    Some(b)
}

/// The greeting for a name.
pub open spec fn greeting_text(name: Seq<char>) -> Seq<char> {
    "Hello "@ + name + ", how are you?"@
}

/// The greeting guest's answer for a name.
pub fn greeting(name: &str) -> (r: String)
    ensures
        r@ == greeting_text(name@),
{
    String::from_str("Hello ").concat(name).concat(", how are you?")
}

/// The name comes back unchanged inside the greeting, whatever characters it
/// holds, so it can be read back from it.
pub proof fn law_greeting_keeps_name(name: Seq<char>)
    ensures
        greeting_text(name).len() == name.len() + 20,
        greeting_text(name).subrange(6, 6 + name.len() as int) == name,
{
    reveal_strlit("Hello ");
    reveal_strlit(", how are you?");
    assert(greeting_text(name).subrange(6, 6 + name.len() as int) =~= name);
}

/// One object in the answer of the listing guest.
pub struct ListedFile {
    pub name: String,
    pub size: u64,
}

/// The answer of the listing guest: whether the store answered, and the
/// objects it listed.
pub struct Listing {
    pub success: bool,
    pub files: Vec<ListedFile>,
}

/// An object's size as listed: absent counts as zero, and the signed size
/// the store reports is read as unsigned 64-bit.
pub open spec fn listed_size(size: Option<i64>) -> u64 {
    match size {
        Some(s) => s as u64,
        None => 0,
    }
}

fn size_bits(s: i64) -> (r: u64)
    ensures
        r == s as u64,
{
    #[verifier::truncate]
    (s as u64)
}

/// One listed object from its key and size as the store reports them.
pub fn listed_file(key: Option<String>, size: Option<i64>) -> (r: ListedFile)
    ensures
        r.name@ == crate::error::text_or_empty(key),
        r.size == listed_size(size),
{
    let name = match key {
        Some(k) => k,
        None => String::new(),
    };
    let size = match size {
        Some(s) => size_bits(s),
        None => 0,
    };
    ListedFile { name, size }
}

/// The listing guest's answer: on success each listed object in order, on a
/// failure of the store no object.
pub fn listing(listed: Result<Vec<(Option<String>, Option<i64>)>, String>) -> (r: Listing)
    ensures
        r.success == listed is Ok,
        listed is Err ==> r.files@.len() == 0,
        listed is Ok ==> r.files@.len() == listed->Ok_0@.len() && forall|i: int|
            0 <= i < r.files@.len() ==> (#[trigger] r.files@[i]).name@ == crate::error::text_or_empty(
                listed->Ok_0@[i].0,
            ) && r.files@[i].size == listed_size(listed->Ok_0@[i].1),
{
    match listed {
        Err(_) => Listing { success: false, files: Vec::new() },
        Ok(objects) => {
            let mut files: Vec<ListedFile> = Vec::new();
            let mut i: usize = 0;
            while i < objects.len()
                invariant
                    i <= objects@.len(),
                    files@.len() == i,
                    forall|j: int|
                        0 <= j < i ==> (#[trigger] files@[j]).name@ == crate::error::text_or_empty(
                            objects@[j].0,
                        ) && files@[j].size == listed_size(objects@[j].1),
                decreases objects@.len() - i,
            {
                let key = match &objects[i].0 {
                    Some(k) => Some(k.clone()),
                    None => None,
                };
                files.push(listed_file(key, objects[i].1));
                i = i + 1;
            }
            Listing { success: true, files }
        },
    }
}

} // verus!
