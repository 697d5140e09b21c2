//! Requests, and what they ask for.
use vstd::prelude::*;
use crate::failure::{Stage, failure, failure_text, law_failures_say_what_failed_and_why};
use crate::json::json_text;
use crate::reply::{err, error_tree};
use crate::text::{
    blank, is_blank, is_white_space, law_lower_case_changes_ascii_capitals_alone,
    law_only_trailing_slashes_are_taken_off, law_trimming_takes_off_white_space_alone, lowered,
    opt_view, same_text, to_lower, trim, trim_end, trim_slashes, trim_start, trimmed,
    views, without_trailing_slashes,
};

verus! {

/// A request, as it came in.
pub struct EpicRequest {
    pub action: String,
    pub mnemonic: Option<String>,
    pub password: Option<String>,
    pub data_dir: Option<String>,
    pub node_url: Option<String>,
    pub restore_start_height: Option<u64>,
    pub to: Option<String>,
    pub amount: Option<String>,
    pub fee: Option<String>,
    pub send_max: Option<String>,
    pub memo: Option<String>,
}

/// A field counts as given if it is there and not blank. It is then taken as it stands, with
/// any white space around it.
pub open spec fn given(field: Option<String>) -> Option<Seq<char>> {
    match field {
        Some(text) => if is_blank(text@) {
            None
        } else {
            Some(text@)
        },
        None => None,
    }
}

/// A field that is there and not blank.
fn given_text(field: &Option<String>) -> (r: Option<&str>)
    ensures
        match r {
            Some(text) => given(*field) == Some(text@),
            None => given(*field) is None,
        },
{
    match field {
        Some(text) => if blank(text.as_str()) {
            None
        } else {
            Some(text.as_str())
        },
        None => None,
    }
}

/// The directory that a request keeps its wallet in.
pub open spec fn wallet_dir_of(req: EpicRequest) -> Seq<char> {
    match given(req.data_dir) {
        Some(dir) => dir,
        None => "epic-light"@,
    }
}

/// The node that a request talks to.
pub open spec fn node_url_of(req: EpicRequest) -> Seq<char> {
    without_trailing_slashes(
        match given(req.node_url) {
            Some(url) => url,
            None => "https://api.altbase.io"@,
        },
    )
}

/// The directory that a request keeps its wallet in.
pub fn wallet_dir(req: &EpicRequest) -> (dir: String)
    ensures
        dir@ == wallet_dir_of(*req),
{
    match given_text(&req.data_dir) {
        Some(dir) => dir.to_owned(),
        None => "epic-light".to_owned(),
    }
}

/// The node that a request talks to, without a slash at the end.
pub fn node_url(req: &EpicRequest) -> (url: String)
    ensures
        url@ == node_url_of(*req),
{
    match given_text(&req.node_url) {
        Some(url) => trim_slashes(url),
        None => trim_slashes("https://api.altbase.io"),
    }
}

/// The words for yes: `true`, `1` and `yes`, in any case, with any white space around them.
pub open spec fn means_yes(text: Seq<char>) -> bool {
    let word = lowered(trimmed(text));
    word == "true"@ || word == "1"@ || word == "yes"@
}

/// A flag of a request: set if the field is there and holds a word for yes.
pub fn request_bool(value: Option<&str>) -> (r: bool)
    ensures
        r == (value is Some && means_yes(value->0@)),
{
    match value {
        Some(text) => {
            let word = to_lower(trim(text));
            same_text(word.as_str(), "true") || same_text(word.as_str(), "1") || same_text(
                word.as_str(),
                "yes",
            )
        },
        None => false,
    }
}

/// A path: a directory, and the names that lead on from it, to be joined as the platform joins
/// paths.
pub struct FilePath {
    pub base: String,
    pub below: Vec<String>,
}

/// `path` leads from a directory through these names.
pub open spec fn leads_to(path: FilePath, dir: Seq<char>, names: Seq<Seq<char>>) -> bool {
    path.base@ == dir && views(path.below@) == names
}

/// Where the wallet in `dir` keeps its configuration.
pub fn config_file(dir: &str) -> (path: FilePath)
    ensures
        leads_to(path, dir@, seq!["epic-wallet.toml"@]),
        path.base@ == dir@,
        path.below@.len() == 1,
        path.below@[0]@ == "epic-wallet.toml"@,
{
    let mut below: Vec<String> = Vec::new();
    below.push("epic-wallet.toml".to_owned());
    assert(views(below@) =~= seq!["epic-wallet.toml"@]);
    FilePath { base: dir.to_owned(), below }
}

/// Where the wallet in `dir` keeps its seed.
pub fn seed_file(dir: &str) -> (path: FilePath)
    ensures
        leads_to(path, dir@, seq!["wallet_data"@, "wallet.seed"@]),
        path.base@ == dir@,
        path.below@.len() == 2,
        path.below@[0]@ == "wallet_data"@,
        path.below@[1]@ == "wallet.seed"@,
{
    let mut below: Vec<String> = Vec::new();
    below.push("wallet_data".to_owned());
    below.push("wallet.seed".to_owned());
    assert(views(below@) =~= seq!["wallet_data"@, "wallet.seed"@]);
    FilePath { base: dir.to_owned(), below }
}

/// `r` is the mnemonic and the password of a request. The mnemonic may not be blank, the password
/// not empty, and a missing mnemonic is reported before a missing password.
pub open spec fn has_credentials(req: EpicRequest, r: Result<(String, String), String>) -> bool {
    match r {
        Ok(pair) => given(req.mnemonic) == Some(pair.0@) && opt_view(req.password) == Some(pair.1@)
            && pair.1@.len() > 0,
        Err(message) => if given(req.mnemonic) is None {
            message@ == "Epic mnemonic is required"@
        } else {
            &&& req.password is None || req.password->0@.len() == 0
            &&& message@ == "Epic wallet password is required"@
        },
    }
}

/// The mnemonic and the password of a request.
pub fn credentials(req: &EpicRequest) -> (r: Result<(String, String), String>)
    ensures
        has_credentials(*req, r),
{
    let mnemonic = match given_text(&req.mnemonic) {
        Some(mnemonic) => mnemonic.to_owned(),
        None => {
            return Err("Epic mnemonic is required".to_owned());
        },
    };
    match &req.password {
        Some(password) => if password.as_str().is_empty() {
            Err("Epic wallet password is required".to_owned())
        } else {
            Ok((mnemonic, password.clone()))
        },
        None => Err("Epic wallet password is required".to_owned()),
    }
}

/// The fee that a request asks for, as text, if it asks for one.
pub fn requested_fee_text(req: &EpicRequest) -> (r: Option<String>)
    ensures
        opt_view(r) == given(req.fee),
{
    match given_text(&req.fee) {
        Some(text) => Some(text.to_owned()),
        None => None,
    }
}

/// The fee that is assumed where a request asks for none, as text.
pub fn default_fee_text() -> (r: &'static str)
    ensures
        r@ == "0.01"@,
{
    "0.01"
}

/// `r` is the fee to start from, out of what the wallet read as the fee that a request asks for,
/// if it asks for one, and as the default fee.
pub open spec fn picks_fee(
    requested: Option<Result<u64, String>>,
    default: Result<u64, String>,
    r: Result<u64, String>,
) -> bool {
    match r {
        Ok(fee) => match requested {
            Some(Ok(asked)) => if asked > 0 {
                fee == asked
            } else {
                default == Ok::<u64, String>(fee)
            },
            Some(Err(_)) => false,
            None => default == Ok::<u64, String>(fee),
        },
        Err(message) => match requested {
            Some(Err(detail)) => message@ == failure_text(Stage::Fee, detail@),
            Some(Ok(asked)) => asked == 0 && default is Err && message@ == failure_text(
                Stage::DefaultFee,
                default->Err_0@,
            ),
            None => default is Err && message@ == failure_text(Stage::DefaultFee, default->Err_0@),
        },
    }
}

/// The fee to start from, out of what the wallet made of the texts: `requested` is what it read
/// from the fee that the request asks for, if it asks for one, and `default` what it read from
/// the default fee.
///
/// A fee that cannot be read is an error; a fee of nothing is as good as none asked for.
pub fn requested_or_default_fee(
    requested: Option<Result<u64, String>>,
    default: Result<u64, String>,
) -> (r: Result<u64, String>)
    ensures
        picks_fee(requested, default, r),
{
    match requested {
        Some(Ok(fee)) => {
            if fee > 0 {
                return Ok(fee);
            }
        },
        Some(Err(detail)) => {
            return Err(failure(Stage::Fee, detail.as_str()));
        },
        None => {},
    }
    match default {
        Ok(fee) => Ok(fee),
        Err(detail) => Err(failure(Stage::DefaultFee, detail.as_str())),
    }
}

/// How much a request sends.
pub enum SendAmount {
    /// Everything that can be spent, less the fee.
    Max,
    /// The amount in this text.
    Text(String),
}

/// Where a request sends to, and how much.
pub struct SendOrder {
    pub to: String,
    pub amount: SendAmount,
}

/// Whether a request sends everything.
pub open spec fn sends_max(req: EpicRequest) -> bool {
    req.send_max is Some && means_yes(req.send_max->0@)
}

/// Where an order sends to, and the text of its amount; no text if it sends everything.
pub open spec fn order_view(order: SendOrder) -> (Seq<char>, Option<Seq<char>>) {
    (
        order.to@,
        match order.amount {
            SendAmount::Max => None,
            SendAmount::Text(text) => Some(text@),
        },
    )
}

/// The order in a request, or the error text where it has none. It has to name a destination
/// and, unless it sends everything, an amount; a missing destination is reported first.
pub open spec fn order_of(req: EpicRequest) -> Result<(Seq<char>, Option<Seq<char>>), Seq<char>> {
    match given(req.to) {
        None => Err("Destination address is required"@),
        Some(to) => if sends_max(req) {
            Ok((to, None))
        } else {
            match given(req.amount) {
                Some(text) => Ok((to, Some(text))),
                None => Err("Amount is required"@),
            }
        },
    }
}

/// Where a request sends to, and how much.
pub fn send_order(req: &EpicRequest) -> (r: Result<SendOrder, String>)
    ensures
        match r {
            Ok(order) => order_of(*req) == Ok::<_, Seq<char>>(order_view(order)),
            Err(message) => order_of(*req) == Err::<(Seq<char>, Option<Seq<char>>), _>(message@),
        },
        r matches Ok(order) ==> req.to is Some && order.to@ == req.to->0@,
        r matches Ok(order) ==> (order.amount matches SendAmount::Text(text) ==> req.amount is Some
            && text@ == req.amount->0@),
{
    let to = match given_text(&req.to) {
        Some(to) => to.to_owned(),
        None => {
            return Err("Destination address is required".to_owned());
        },
    };
    let flag: Option<&str> = match &req.send_max {
        Some(text) => Some(text.as_str()),
        None => None,
    };
    if request_bool(flag) {
        return Ok(SendOrder { to, amount: SendAmount::Max });
    }
    match given_text(&req.amount) {
        Some(text) => Ok(SendOrder { to, amount: SendAmount::Text(text.to_owned()) }),
        None => Err("Amount is required".to_owned()),
    }
}

/// A request that sends everything is understood the same whatever amount it names, or none.
pub proof fn law_sending_everything_ignores_the_amount(req: EpicRequest, amount: Option<String>)
    requires
        sends_max(req),
    ensures
        order_of(EpicRequest { amount, ..req }) == order_of(req),
        order_of(req) matches Ok(order) ==> order.1 is None,
{
}

/// A request to send is understood the same whatever fee it names, or none.
pub proof fn law_order_ignores_the_fee(req: EpicRequest, fee: Option<String>)
    ensures
        order_of(EpicRequest { fee, ..req }) == order_of(req),
{
}

/// What a request wants done.
#[derive(Clone, Copy, Debug, PartialEq, Eq, Structural)]
pub enum Action {
    Ensure,
    Snapshot,
    Send,
}

/// The action of a request: `ensure`, `snapshot` or `send`, to the letter.
pub open spec fn action_named(name: Seq<char>) -> Option<Action> {
    if name == "ensure"@ {
        Some(Action::Ensure)
    } else if name == "snapshot"@ {
        Some(Action::Snapshot)
    } else if name == "send"@ {
        Some(Action::Send)
    } else {
        None
    }
}

/// What follows from a request: work on the wallet, or a reply at once.
pub enum Dispatch {
    Run(Action, EpicRequest),
    Reply(String),
}

/// `r` is what follows from a request, out of what was read of it.
pub open spec fn dispatches(parsed: Result<EpicRequest, String>, r: Dispatch) -> bool {
    match parsed {
        Ok(req) => match action_named(req.action@) {
            Some(action) => r == Dispatch::Run(action, req),
            None => r is Reply && r->Reply_0@ == json_text(
                error_tree("epic-native-bad-action"@, "Unsupported Epic action"@),
            ),
        },
        Err(message) => r is Reply && r->Reply_0@ == json_text(
            error_tree("epic-native-bad-request"@, message@),
        ),
    }
}

/// What follows from a request, out of what was read of it: `parsed` is the request or, if the
/// input was none, what was wrong with it.
pub fn handle(parsed: Result<EpicRequest, String>) -> (r: Dispatch)
    ensures
        dispatches(parsed, r),
        r is Reply ==> !r->Reply_0@.contains('\0'),
{
    let req = match parsed {
        Ok(req) => req,
        Err(message) => {
            return Dispatch::Reply(err("epic-native-bad-request", message.as_str()));
        },
    };
    if same_text(req.action.as_str(), "ensure") {
        Dispatch::Run(Action::Ensure, req)
    } else if same_text(req.action.as_str(), "snapshot") {
        Dispatch::Run(Action::Snapshot, req)
    } else if same_text(req.action.as_str(), "send") {
        Dispatch::Run(Action::Send, req)
    } else {
        Dispatch::Reply(err("epic-native-bad-action", "Unsupported Epic action"))
    }
}

/// The reply to a request whose work is done: what the work replies or, if it failed, an error
/// reply with its error text.
pub open spec fn reply_of(outcome: Result<String, String>) -> Seq<char> {
    match outcome {
        Ok(text) => text@,
        Err(message) => json_text(error_tree("epic-native-wallet-error"@, message@)),
    }
}

/// The reply to a request whose work is done.
pub fn finish(outcome: Result<String, String>) -> (reply: String)
    ensures
        reply@ == reply_of(outcome),
        (outcome is Ok ==> !outcome->Ok_0@.contains('\0')) ==> !reply@.contains('\0'),
{
    match outcome {
        Ok(text) => text,
        Err(message) => err("epic-native-wallet-error", message.as_str()),
    }
}

/// The slashes at the end of a text are all gone once they are taken off.
proof fn lemma_no_trailing_slash(s: Seq<char>)
    ensures
        without_trailing_slashes(s).len() == 0 || without_trailing_slashes(s).last() != '/',
    decreases s.len(),
{
    if s.len() > 0 && s.last() == '/' {
        lemma_no_trailing_slash(s.drop_last());
    }
}

/// The URL of a node never ends in a slash, so that an endpoint can be put behind it with one.
pub proof fn law_node_url_has_no_trailing_slash(req: EpicRequest)
    ensures
        node_url_of(req).len() == 0 || node_url_of(req).last() != '/',
        without_trailing_slashes(node_url_of(req)) == node_url_of(req),
{
    let url = match given(req.node_url) {
        Some(url) => url,
        None => "https://api.altbase.io"@,
    };
    lemma_no_trailing_slash(url);
}

/// A wallet's directory is never blank.
pub proof fn law_wallet_dir_is_not_blank(req: EpicRequest)
    ensures
        !is_blank(wallet_dir_of(req)),
{
    reveal_strlit("epic-light");
    assert("epic-light"@[0] == 'e');
}

/// A field counts as given if any of its characters is not white space, wherever it stands, and
/// is then taken to the letter.
pub proof fn law_given_fields_are_taken_to_the_letter(field: Option<String>)
    ensures
        given(field) is Some ==> field is Some && given(field)->0 == field->0@,
        given(field) is Some <==> field is Some && exists|i: int|
            0 <= i < field->0@.len() && !is_white_space(#[trigger] field->0@[i]),
{
}

/// A wallet is kept where the request says, to the letter, and in one place wherever it says
/// nothing.
pub proof fn law_wallet_dir_is_as_given(req: EpicRequest, i: int)
    ensures
        req.data_dir is Some && 0 <= i < req.data_dir->0@.len() && !is_white_space(
            req.data_dir->0@[i],
        ) ==> wallet_dir_of(req) == req.data_dir->0@,
        req.data_dir is None ==> wallet_dir_of(req) == "epic-light"@,
        req.data_dir is Some && (forall|k: int|
            0 <= k < req.data_dir->0@.len() ==> is_white_space(#[trigger] req.data_dir->0@[k]))
            ==> wallet_dir_of(req) == "epic-light"@,
{
}

/// The node is the one that the request says, to the letter but for slashes at its end, and one
/// node wherever it says nothing.
pub proof fn law_node_url_is_as_given(req: EpicRequest, i: int)
    ensures
        req.node_url is Some && 0 <= i < req.node_url->0@.len() && !is_white_space(
            req.node_url->0@[i],
        ) ==> exists|n: int|
            0 <= n <= req.node_url->0@.len() && node_url_of(req) == #[trigger] req.node_url->0@.take(
                n,
            ) && (forall|k: int|
                n <= k < req.node_url->0@.len() ==> #[trigger] req.node_url->0@[k] == '/') && (n > 0
                ==> req.node_url->0@[n - 1] != '/'),
        req.node_url is None ==> node_url_of(req) == "https://api.altbase.io"@,
        req.node_url is Some && (forall|k: int|
            0 <= k < req.node_url->0@.len() ==> is_white_space(#[trigger] req.node_url->0@[k]))
            ==> node_url_of(req) == "https://api.altbase.io"@,
{
    if req.node_url is Some {
        law_only_trailing_slashes_are_taken_off(req.node_url->0@);
    }
    reveal_strlit("https://api.altbase.io");
    assert("https://api.altbase.io"@.len() == 22);
    assert("https://api.altbase.io"@.last() == 'o');
}

/// Trimming takes white space off the start of a text that goes on with something else.
proof fn lemma_trim_start_of(before: Seq<char>, rest: Seq<char>)
    requires
        is_blank(before),
        rest.len() > 0,
        !is_white_space(rest[0]),
    ensures
        trim_start(before + rest) == rest,
    decreases before.len(),
{
    if before.len() > 0 {
        let less = before.drop_first();
        assert forall|i: int| 0 <= i < less.len() implies is_white_space(#[trigger] less[i]) by {
            assert(less[i] == before[i + 1]);
        }
        lemma_trim_start_of(less, rest);
        assert((before + rest)[0] == before[0]);
        assert((before + rest).drop_first() =~= less + rest);
    } else {
        assert(before + rest =~= rest);
    }
}

/// Trimming takes white space off the end of a text that starts with something else.
proof fn lemma_trim_end_of(rest: Seq<char>, behind: Seq<char>)
    requires
        is_blank(behind),
        rest.len() > 0,
        !is_white_space(rest.last()),
    ensures
        trim_end(rest + behind) == rest,
    decreases behind.len(),
{
    if behind.len() > 0 {
        let less = behind.drop_last();
        assert forall|i: int| 0 <= i < less.len() implies is_white_space(#[trigger] less[i]) by {
            assert(less[i] == behind[i]);
        }
        lemma_trim_end_of(rest, less);
        assert((rest + behind).last() == behind.last());
        assert((rest + behind).drop_last() =~= rest + less);
    } else {
        assert(rest + behind =~= rest);
    }
}

/// A field says yes with one of three words, in capitals or not, with any white space around it,
/// and with nothing else.
pub proof fn law_yes_is_said_with_three_words(
    before: Seq<char>,
    word: Seq<char>,
    behind: Seq<char>,
    text: Seq<char>,
)
    requires
        is_blank(before),
        is_blank(behind),
        lowered(word) == "true"@ || lowered(word) == "1"@ || lowered(word) == "yes"@,
    ensures
        means_yes(before + word + behind),
        means_yes(text) ==> exists|from: int, to: int|
            0 <= from < to <= text.len() && {
                let part = lowered(#[trigger] text.subrange(from, to));
                part == "true"@ || part == "1"@ || part == "yes"@
            } && (forall|i: int|
                (0 <= i < from || to <= i < text.len()) ==> is_white_space(#[trigger] text[i])),
{
    reveal_strlit("true");
    reveal_strlit("1");
    reveal_strlit("yes");
    let last = word.len() - 1;
    assert(lowered(word).len() == word.len());
    law_lower_case_changes_ascii_capitals_alone(word, 0);
    law_lower_case_changes_ascii_capitals_alone(word, last);
    lemma_trim_start_of(before, word + behind);
    lemma_trim_end_of(word, behind);
    assert(before + word + behind =~= before + (word + behind));
    if means_yes(text) {
        law_trimming_takes_off_white_space_alone(text);
        let (from, to) = choose|from: int, to: int|
            0 <= from <= to <= text.len() && trimmed(text) == #[trigger] text.subrange(from, to) && (
            forall|i: int|
                (0 <= i < from || to <= i < text.len()) ==> is_white_space(#[trigger] text[i]));
        assert(lowered(trimmed(text)).len() == to - from);
    }
}

/// A flag that is not there is not set.
pub proof fn law_everything_is_sent_only_on_demand(req: EpicRequest)
    ensures
        req.send_max is None ==> !sends_max(req),
        req.send_max is Some ==> (sends_max(req) <==> means_yes(req.send_max->0@)),
{
}

/// The mnemonic and the password are the request's own, to the letter, and are there exactly if
/// the one is not blank and the other not empty.
pub proof fn law_credentials_are_taken_to_the_letter(
    req: EpicRequest,
    r: Result<(String, String), String>,
)
    requires
        call_ensures(credentials, (&req,), r),
    ensures
        r matches Ok(pair) ==> req.mnemonic is Some && pair.0@ == req.mnemonic->0@
            && req.password is Some && pair.1@ == req.password->0@,
        r is Ok <==> req.mnemonic is Some && !is_blank(req.mnemonic->0@) && req.password is Some
            && req.password->0@.len() > 0,
        r matches Err(message) ==> message@ == (if req.mnemonic is Some && !is_blank(
            req.mnemonic->0@,
        ) {
            "Epic wallet password is required"@
        } else {
            "Epic mnemonic is required"@
        }),
{
}

/// A fee that is asked for and is not nothing is the one to start from, whatever the default is;
/// one that cannot be read is an error, whatever the default is; and the default counts in all
/// other cases.
pub proof fn law_the_fee_asked_for_comes_first(
    asked: u64,
    detail: String,
    default: Result<u64, String>,
    some_asked: Result<u64, String>,
    none_asked: Result<u64, String>,
    unread: Result<u64, String>,
)
    requires
        call_ensures(requested_or_default_fee, (Some(Ok(asked)), default), some_asked),
        call_ensures(requested_or_default_fee, (None, default), none_asked),
        call_ensures(requested_or_default_fee, (Some(Err(detail)), default), unread),
    ensures
        asked > 0 ==> some_asked == Ok::<u64, String>(asked),
        default matches Ok(fee) ==> none_asked == Ok::<u64, String>(fee) && (asked == 0
            ==> some_asked == Ok::<u64, String>(fee)),
        default matches Err(why) ==> none_asked is Err && none_asked->Err_0@
            == "Epic default fee: "@ + why@,
        unread is Err && unread->Err_0@ == "Epic fee: "@ + detail@,
{
    law_failures_say_what_failed_and_why(detail@);
    if let Err(why) = default {
        law_failures_say_what_failed_and_why(why@);
    }
}

/// The destination of an order, and its amount if it names one, are the request's own, to the
/// letter; there is an order exactly if the destination is not blank and neither is the amount,
/// unless everything is sent.
pub proof fn law_orders_are_taken_to_the_letter(req: EpicRequest)
    ensures
        order_of(req) matches Ok(order) ==> req.to is Some && order.0 == req.to->0@ && (order.1
            is None <==> sends_max(req)) && (order.1 matches Some(text) ==> req.amount is Some
            && text == req.amount->0@),
        order_of(req) is Ok <==> req.to is Some && !is_blank(req.to->0@) && (sends_max(req) || (
        req.amount is Some && !is_blank(req.amount->0@))),
        order_of(req) matches Err(message) ==> message == (if req.to is Some && !is_blank(
            req.to->0@,
        ) {
            "Amount is required"@
        } else {
            "Destination address is required"@
        }),
{
}

/// The actions go by their names to the letter, and by no others.
pub proof fn law_actions_go_by_their_names(name: Seq<char>)
    ensures
        action_named(name) == Some(Action::Ensure) <==> name == "ensure"@,
        action_named(name) == Some(Action::Snapshot) <==> name == "snapshot"@,
        action_named(name) == Some(Action::Send) <==> name == "send"@,
{
    reveal_strlit("ensure");
    reveal_strlit("snapshot");
    reveal_strlit("send");
    assert("ensure"@.len() == 6 && "snapshot"@.len() == 8 && "send"@.len() == 4);
}

/// Work is done only on a request that could be read, and on that request as it is; whatever else
/// comes in is answered at once, with a failure.
pub proof fn law_work_is_done_on_the_request_itself(
    parsed: Result<EpicRequest, String>,
    r: Dispatch,
)
    requires
        call_ensures(handle, (parsed,), r),
    ensures
        r matches Dispatch::Run(action, req) ==> parsed == Ok::<EpicRequest, String>(req) && (
        match action {
            Action::Ensure => req.action@ == "ensure"@,
            Action::Snapshot => req.action@ == "snapshot"@,
            Action::Send => req.action@ == "send"@,
        }),
        r is Run <==> parsed is Ok && (parsed->Ok_0.action@ == "ensure"@ || parsed->Ok_0.action@
            == "snapshot"@ || parsed->Ok_0.action@ == "send"@),
        parsed matches Err(message) ==> r is Reply && r->Reply_0@ == json_text(
            error_tree("epic-native-bad-request"@, message@),
        ),
        parsed is Ok && r is Reply ==> r->Reply_0@ == json_text(
            error_tree("epic-native-bad-action"@, "Unsupported Epic action"@),
        ),
{
    if let Ok(req) = parsed {
        law_actions_go_by_their_names(req.action@);
    }
}

/// What the work replies goes back to the letter, and what went wrong in it is told in a failure.
pub proof fn law_replies_go_back_to_the_letter(outcome: Result<String, String>)
    ensures
        outcome matches Ok(text) ==> reply_of(outcome) == text@,
        outcome matches Err(message) ==> reply_of(outcome) == json_text(
            error_tree("epic-native-wallet-error"@, message@),
        ),
{
}

/// A path starts at its directory, to the letter, and has as many names behind it as it leads
/// through.
pub proof fn law_paths_start_at_their_directory(
    path: FilePath,
    dir: Seq<char>,
    names: Seq<Seq<char>>,
    i: int,
)
    requires
        leads_to(path, dir, names),
    ensures
        path.base@ == dir,
        path.below@.len() == names.len(),
        0 <= i < names.len() ==> path.below@[i]@ == names[i],
{
    assert(views(path.below@).len() == names.len());
    if 0 <= i < names.len() {
        assert(views(path.below@)[i] == names[i]);
    }
}

} // verus!
