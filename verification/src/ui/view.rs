use vstd::prelude::*;

use crate::models::Notification;

verus! {

/// The label of the do-not-disturb button.
pub open spec fn spec_dnd_label(do_not_disturb: bool) -> Seq<char> {
    if do_not_disturb {
        "Do not Disturb: On"@
    } else {
        "Do not Disturb: Off"@
    }
}

/// The label of the do-not-disturb button for the switch's state.
pub fn dnd_label(do_not_disturb: bool) -> (r: &'static str)
    ensures
        r@ == spec_dnd_label(do_not_disturb),
        do_not_disturb ==> r@ == "Do not Disturb: On"@,
        !do_not_disturb ==> r@ == "Do not Disturb: Off"@,
{
    if do_not_disturb {
        "Do not Disturb: On"
    } else {
        "Do not Disturb: Off"
    }
}

/// The character of the decimal digit `d`.
pub open spec fn digit_char(d: nat) -> char {
    (48 + d) as char
}

/// The decimal notation of `n`, without leading zeros.
pub open spec fn decimal(n: nat) -> Seq<char>
    decreases n,
{
    if n < 10 {
        seq![digit_char(n)]
    } else {
        decimal(n / 10).push(digit_char(n % 10))
    }
}

/// The number a string of decimal digits stands for.
pub open spec fn decimal_value(s: Seq<char>) -> int
    decreases s.len(),
{
    if s.len() == 0 {
        0
    } else {
        decimal_value(s.drop_last()) * 10 + (s.last() as int - 48)
    }
}

/// The decimal notation of `n` is made of digits only, has no leading zero,
/// and reads back as `n`.
pub proof fn lemma_decimal_reads_back(n: nat)
    ensures
        decimal_value(decimal(n)) == n,
        decimal(n).len() >= 1,
        n >= 10 <==> decimal(n).len() > 1,
        forall|i: int| 0 <= i < decimal(n).len() ==> '0' <= #[trigger] decimal(n)[i] <= '9',
        decimal(n).len() > 1 ==> decimal(n)[0] != '0',
    decreases n,
{
    assert(digit_char(n % 10) as int == 48 + n % 10);
    if n < 10 {
        assert(digit_char(n) as int == 48 + n);
        assert(decimal(n).drop_last().len() == 0);
        assert(decimal_value(decimal(n).drop_last()) == 0);
        assert(decimal(n).len() == 1);
    }
    if n >= 10 {
        lemma_decimal_reads_back(n / 10);
        let d = decimal(n);
        assert(d.drop_last() == decimal(n / 10));
        assert(d.last() == digit_char(n % 10));
        assert(decimal_value(d) == decimal_value(decimal(n / 10)) * 10 + (n % 10));
        assert((n / 10) * 10 + n % 10 == n);
        assert forall|i: int| 0 <= i < d.len() implies '0' <= #[trigger] d[i] <= '9' by {
            if i < d.len() - 1 {
                assert(d[i] == decimal(n / 10)[i]);
            }
        }
        if n / 10 >= 10 {
            assert(d[0] == decimal(n / 10)[0]);
        } else {
            assert(decimal(n / 10) == seq![digit_char(n / 10)]);
            assert(d[0] == digit_char(n / 10));
            assert(digit_char(n / 10) as int == 48 + n / 10);
        }
    }
}

/// Appends `c` to `s` (std's `String::push`).
#[verifier::external_body]
fn push_char(s: &mut String, c: char)
    ensures
        final(s)@ == old(s)@.push(c),
{
    s.push(c)
}

/// The character of the digit `d`.
fn digit(d: u8) -> (c: char)
    requires
        d < 10,
    ensures
        c == digit_char(d as nat),
{
    (48u8 + d) as char
}

/// How far a song has got, written as a whole percentage such as "42%".
pub fn percentage_label(percentage: u8) -> (r: String)
    ensures
        r@ == decimal(percentage as nat).push('%'),
        r@.last() == '%',
        decimal_value(r@.drop_last()) == percentage as int,
{
    let mut s = String::new();
    if percentage >= 100 {
        push_char(&mut s, digit(percentage / 100));
    }
    if percentage >= 10 {
        push_char(&mut s, digit((percentage / 10) % 10));
    }
    push_char(&mut s, digit(percentage % 10));
    proof {
        reveal_with_fuel(decimal, 3);
        let p = percentage as nat;
        if p >= 100 {
            assert(decimal(p / 10) == decimal(p / 100).push(digit_char((p / 10) % 10)));
        }
        assert(s@ == decimal(p));
    }
    push_char(&mut s, '%');
    proof {
        lemma_decimal_reads_back(percentage as nat);
        assert(s@.drop_last() == decimal(percentage as nat));
    }
    s
}

/// The texts a notification's card shows in the window, top to bottom (a
/// chat card shows its application and time side by side, then the rest).
pub open spec fn card_texts_spec(n: Notification) -> Seq<Seq<char>> {
    match n {
        Notification::General(g) => seq![g.app_name@, g.summary@, g.body@],
        Notification::Call(c) => seq![c.contact_name@, c.phone_number@],
        Notification::Music(m) => seq![
            "Now playing"@,
            m.song_name@,
            decimal(m.percentage as nat).push('%'),
        ],
        Notification::Chat(c) => seq![c.app_name@, c.timestamp@, c.title@, c.body@],
        Notification::Audio(_) => seq!["Audio notification"@],
        Notification::Display(_) => seq!["Display notification"@],
    }
}

/// The texts a notification's card shows in the window.
pub fn card_texts(n: &Notification) -> (r: Vec<String>)
    ensures
        r@.map_values(|s: String| s@) == card_texts_spec(*n),
        n is General ==> r@.len() == 3 && r@[0]@ == n->General_0.app_name@ && r@[1]@
            == n->General_0.summary@ && r@[2]@ == n->General_0.body@,
        n is Call ==> r@.len() == 2 && r@[0]@ == n->Call_0.contact_name@ && r@[1]@
            == n->Call_0.phone_number@,
        n is Music ==> r@.len() == 3 && r@[0]@ == "Now playing"@ && r@[1]@
            == n->Music_0.song_name@ && r@[2]@ == decimal(n->Music_0.percentage as nat).push(
            '%',
        ),
        n is Chat ==> r@.len() == 4 && r@[0]@ == n->Chat_0.app_name@ && r@[1]@
            == n->Chat_0.timestamp@ && r@[2]@ == n->Chat_0.title@ && r@[3]@ == n->Chat_0.body@,
        n is Audio ==> r@.len() == 1 && r@[0]@ == "Audio notification"@,
        n is Display ==> r@.len() == 1 && r@[0]@ == "Display notification"@,
{
    let r = match n {
        Notification::General(g) => vec![g.app_name.clone(), g.summary.clone(), g.body.clone()],
        Notification::Call(c) => vec![c.contact_name.clone(), c.phone_number.clone()],
        Notification::Music(m) => vec![
            "Now playing".to_string(),
            m.song_name.clone(),
            percentage_label(m.percentage),
        ],
        Notification::Chat(c) => vec![
            c.app_name.clone(),
            c.timestamp.clone(),
            c.title.clone(),
            c.body.clone(),
        ],
        Notification::Audio(_) => vec!["Audio notification".to_string()],
        Notification::Display(_) => vec!["Display notification".to_string()],
    };
    assert(r@.map_values(|s: String| s@) =~= card_texts_spec(*n));
    proof {
        lemma_card_texts_show_fields(*n);
        assert forall|i: int| 0 <= i < r@.len() implies r@[i]@ == card_texts_spec(*n)[i] by {
            assert(r@.map_values(|s: String| s@)[i] == r@[i]@);
        }
    }
    r
}

/// Each card shows the notification's own fields, each in its own place: a
/// general card its application, then its summary, then its body; a call
/// card the contact and then the number; a music card "Now playing", the
/// song and the progress; a chat card its application, its time, its title
/// and its body; an audio or display card a fixed label.
pub proof fn lemma_card_texts_show_fields(n: Notification)
    ensures
        n is General ==> card_texts_spec(n).len() == 3 && card_texts_spec(n)[0]
            == n->General_0.app_name@ && card_texts_spec(n)[1] == n->General_0.summary@
            && card_texts_spec(n)[2] == n->General_0.body@,
        n is Call ==> card_texts_spec(n).len() == 2 && card_texts_spec(n)[0]
            == n->Call_0.contact_name@ && card_texts_spec(n)[1] == n->Call_0.phone_number@,
        n is Music ==> card_texts_spec(n).len() == 3 && card_texts_spec(n)[0] == "Now playing"@
            && card_texts_spec(n)[1] == n->Music_0.song_name@ && card_texts_spec(n)[2] == decimal(
            n->Music_0.percentage as nat,
        ).push('%'),
        n is Chat ==> card_texts_spec(n).len() == 4 && card_texts_spec(n)[0]
            == n->Chat_0.app_name@ && card_texts_spec(n)[1] == n->Chat_0.timestamp@
            && card_texts_spec(n)[2] == n->Chat_0.title@ && card_texts_spec(n)[3]
            == n->Chat_0.body@,
        n is Audio ==> card_texts_spec(n) == seq!["Audio notification"@],
        n is Display ==> card_texts_spec(n) == seq!["Display notification"@],
{
}

} // verus!
