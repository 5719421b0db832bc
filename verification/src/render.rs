//! Rendering of transcript lines.
//!
//! Every user-visible line the engine produces is built here, as plain
//! text; coloring and timestamps are interactive-terminal concerns that
//! stay outside the library.  Functions that present an outside result
//! (a decrypt outcome, a key listing) take that result as an argument.

use vstd::prelude::*;

use crate::classify::DecryptError;
use crate::inbox::{views_of, InboxCache, SightingModel};
use crate::keyring::{key_views_of, PublicKey, PublicKeyModel};
use crate::text::{dec_of, push_line, u64_to_dec};

verus! {

/// Fixed help text for the command vocabulary.
pub closed spec fn spec_render_help() -> Seq<char> {
    HELP_TEXT@
}

const HELP_TEXT: &'static str = "Commands:\n  help | h | ?                         Show this help\n  me                                   Show your local GPG secret key fingerprints\n  keys                                 List public keys (recipients) from your GPG keyring\n  load <count>                         Load and replay last <count> messages from the channel\n  send <message...> | s <message...>   Send message to channel\n  clear                                Clear the screen\n  quit | exit | q                      Exit\n\nPGP:\n  pgp list                             List captured PGP blocks\n  pgp decrypt <id>                     Try to decrypt a captured PGP block\n  pgp decrypt-last                     Try to decrypt the latest captured PGP block\n  pgp send <message...>                Encrypt and send using exported recipient\n  pgp send -r <fpr|uid> <message...>   Encrypt and send to an explicit recipient\n\nSession exports (live only):\n  export recipient <fpr|uid>           Set default PGP recipient for this session\n  export channel <id>                  Override Discord channel for send/listen\n  export show                          Show current exported session values\n  export unset <recipient|channel>     Clear exported value\n";

/// The help transcript.
pub fn render_help() -> (r: String)
    ensures
        r@ == spec_render_help(),
{
    String::from_str(HELP_TEXT)
}

/// A warning line: the message as given (undecorated here; emphasis is
/// a terminal concern).
pub fn render_warn(msg: &str) -> (r: String)
    ensures
        r@ == msg@,
{
    String::from_str(msg)
}

/// An error line, prefixed distinctly from normal output.
pub open spec fn spec_render_error(msg: Seq<char>) -> Seq<char> {
    "! "@ + msg
}

pub fn render_error(msg: &str) -> (r: String)
    ensures
        r@ == spec_render_error(msg@),
{
    let mut r = String::from_str("! ");
    r.append(msg);
    assert(r@ =~= spec_render_error(msg@));
    r
}

/// An inbound plain-text message.
pub open spec fn spec_render_incoming(author: Seq<char>, content: Seq<char>) -> Seq<char> {
    "< "@ + author + ": "@ + content
}

pub fn render_incoming(author: &str, content: &str) -> (r: String)
    ensures
        r@ == spec_render_incoming(author@, content@),
{
    let mut r = String::from_str("< ");
    r.append(author);
    r.append(": ");
    r.append(content);
    assert(r@ =~= spec_render_incoming(author@, content@));
    r
}

/// Confirmation that a plain message was posted.
pub open spec fn spec_render_outgoing_sent() -> Seq<char> {
    "> sent"@
}

pub fn render_outgoing_sent() -> (r: String)
    ensures
        r@ == spec_render_outgoing_sent(),
{
    String::from_str("> sent")
}

/// Confirmation that an encrypted message was posted to `recipient`.
pub open spec fn spec_render_pgp_sent(recipient: Seq<char>) -> Seq<char> {
    "> sent encrypted PGP message to "@ + recipient
}

pub fn render_pgp_sent(recipient: &str) -> (r: String)
    ensures
        r@ == spec_render_pgp_sent(recipient@),
{
    let mut r = String::from_str("> sent encrypted PGP message to ");
    r.append(recipient);
    assert(r@ =~= spec_render_pgp_sent(recipient@));
    r
}

/// The shared prefix of inbound armored-block lines.
pub open spec fn spec_pgp_line_prefix(author: Seq<char>, id: Seq<char>) -> Seq<char> {
    "< "@ + author + ": [PGP] id="@ + id + " "@
}

fn pgp_line_prefix(author: &str, id: &str) -> (r: String)
    ensures
        r@ == spec_pgp_line_prefix(author@, id@),
{
    let mut r = String::from_str("< ");
    r.append(author);
    r.append(": [PGP] id=");
    r.append(id);
    r.append(" ");
    assert(r@ =~= spec_pgp_line_prefix(author@, id@));
    r
}

/// An inbound armored block that decrypted: the plaintext follows on
/// its own line.
pub open spec fn spec_render_pgp_decrypted(
    author: Seq<char>,
    id: Seq<char>,
    plaintext: Seq<char>,
) -> Seq<char> {
    spec_pgp_line_prefix(author, id) + "decrypted\n"@ + plaintext
}

pub fn render_pgp_decrypted(author: &str, id: &str, plaintext: &str) -> (r: String)
    ensures
        r@ == spec_render_pgp_decrypted(author@, id@, plaintext@),
{
    let mut r = pgp_line_prefix(author, id);
    r.append("decrypted\n");
    r.append(plaintext);
    assert(r@ =~= spec_render_pgp_decrypted(author@, id@, plaintext@));
    r
}

/// An inbound armored block with malformed framing.
pub open spec fn spec_render_pgp_invalid(author: Seq<char>, id: Seq<char>) -> Seq<char> {
    spec_pgp_line_prefix(author, id) + "invalid"@
}

pub fn render_pgp_invalid(author: &str, id: &str) -> (r: String)
    ensures
        r@ == spec_render_pgp_invalid(author@, id@),
{
    let mut r = pgp_line_prefix(author, id);
    r.append("invalid");
    assert(r@ =~= spec_render_pgp_invalid(author@, id@));
    r
}

/// An inbound armored block whose decrypt failed unexpectedly.
pub open spec fn spec_render_pgp_error(author: Seq<char>, id: Seq<char>) -> Seq<char> {
    spec_pgp_line_prefix(author, id) + "decrypt error"@
}

pub fn render_pgp_error(author: &str, id: &str) -> (r: String)
    ensures
        r@ == spec_render_pgp_error(author@, id@),
{
    let mut r = pgp_line_prefix(author, id);
    r.append("decrypt error");
    assert(r@ =~= spec_render_pgp_error(author@, id@));
    r
}

/// An inbound armored block not addressed to a key we hold.
pub open spec fn spec_render_pgp_unknown(author: Seq<char>, id: Seq<char>) -> Seq<char> {
    spec_pgp_line_prefix(author, id) + "not for me"@
}

pub fn render_pgp_unknown(author: &str, id: &str) -> (r: String)
    ensures
        r@ == spec_render_pgp_unknown(author@, id@),
{
    let mut r = pgp_line_prefix(author, id);
    r.append("not for me");
    assert(r@ =~= spec_render_pgp_unknown(author@, id@));
    r
}

/// The lines shown for a deliberate decrypt attempt on a cached block,
/// one case per outcome tier; the plaintext gets its own line.
pub open spec fn spec_render_decrypt_attempt(
    id: Seq<char>,
    outcome: Result<Seq<char>, crate::classify::DecryptErrorModel>,
) -> Seq<Seq<char>> {
    match outcome {
        Ok(pt) => seq!["Decrypted (id="@ + id + ")"@, pt],
        Err(e) => match e {
            crate::classify::DecryptErrorModel::NotForMe { .. } => seq![
                "Not for me (id="@ + id + ")"@,
            ],
            crate::classify::DecryptErrorModel::InvalidMessage { .. } => seq![
                "Invalid PGP message (id="@ + id + ")"@,
            ],
            crate::classify::DecryptErrorModel::GpgFailed { .. } => seq![
                "Decrypt error (id="@ + id + ")"@,
            ],
            crate::classify::DecryptErrorModel::Io(_) => seq!["Decrypt error (id="@ + id + ")"@],
        },
    }
}

/// Render the outcome of a deliberate decrypt attempt on block `id`.
pub fn render_decrypt_attempt(id: &str, outcome: &Result<String, DecryptError>) -> (r: Vec<String>)
    ensures
        r.deep_view() == spec_render_decrypt_attempt(
            id@,
            match outcome {
                Ok(pt) => Ok(pt@),
                Err(e) => Err(e@),
            },
        ),
{
    let mut r: Vec<String> = Vec::new();
    match outcome {
        Ok(pt) => {
            let mut line = String::from_str("Decrypted (id=");
            line.append(id);
            line.append(")");
            push_line(&mut r, line);
            push_line(&mut r, pt.clone());
            assert(r.deep_view() =~~= spec_render_decrypt_attempt(id@, Ok(pt@)));
        },
        Err(e) => {
            let mut line = match e {
                DecryptError::NotForMe { .. } => String::from_str("Not for me (id="),
                DecryptError::InvalidMessage { .. } => String::from_str(
                    "Invalid PGP message (id=",
                ),
                DecryptError::GpgFailed { .. } => String::from_str("Decrypt error (id="),
                DecryptError::Io(_) => String::from_str("Decrypt error (id="),
            };
            line.append(id);
            line.append(")");
            push_line(&mut r, line);
            assert(r.deep_view() =~~= spec_render_decrypt_attempt(id@, Err(e@)));
        },
    }
    r
}

/// One line of the captured-block listing: the fingerprint and how
/// long the block is.
pub open spec fn spec_render_inbox_entry(m: SightingModel) -> Seq<char> {
    "  id= "@ + m.id + " ("@ + dec_of(m.block.len()) + " chars)"@
}

/// One listing line per cached sighting, in cache order.
pub open spec fn spec_render_inbox_entries(cache: Seq<SightingModel>) -> Seq<Seq<char>> {
    Seq::new(cache.len(), |i: int| spec_render_inbox_entry(cache[i]))
}

/// The lines of the captured-block listing: a warning when nothing was
/// captured yet, a header and one line per sighting (oldest first)
/// otherwise.
pub open spec fn spec_render_pgp_list(cache: Seq<SightingModel>) -> Seq<Seq<char>> {
    if cache.len() == 0 {
        seq!["No PGP messages captured yet."@]
    } else {
        seq!["Captured PGP messages (latest last):"@] + spec_render_inbox_entries(cache)
    }
}

/// Render the captured-block listing.
pub fn render_pgp_list(inbox: &InboxCache) -> (r: Vec<String>)
    ensures
        r.deep_view() == spec_render_pgp_list(inbox@),
{
    let mut r: Vec<String> = Vec::new();
    if inbox.is_empty() {
        push_line(&mut r, String::from_str("No PGP messages captured yet."));
        assert(r.deep_view() =~~= spec_render_pgp_list(inbox@));
        return r;
    }
    push_line(&mut r, String::from_str("Captured PGP messages (latest last):"));
    let entries = inbox.list();
    let n = entries.len();
    let ghost mapped = spec_render_inbox_entries(inbox@);
    let mut i: usize = 0;
    while i < n
        invariant
            n == entries@.len(),
            views_of(entries@) == inbox@,
            mapped == spec_render_inbox_entries(inbox@),
            i <= n,
            r.deep_view() =~~= seq!["Captured PGP messages (latest last):"@] + mapped.take(
                i as int,
            ),
        decreases n - i,
    {
        let e = &entries[i];
        let mut line = String::from_str("  id= ");
        line.append(e.id.as_str());
        line.append(" (");
        let blen: usize = e.block.as_str().unicode_len();
        let count = u64_to_dec(blen as u64);
        line.append(count.as_str());
        line.append(" chars)");
        proof {
            assert(entries@[i as int]@ == views_of(entries@)[i as int]);
            assert(line@ =~= spec_render_inbox_entry(inbox@[i as int]));
        }
        push_line(&mut r, line);
        assert(r.deep_view() =~~= seq!["Captured PGP messages (latest last):"@] + mapped.take(
            i + 1,
        ));
        i += 1;
    }
    proof {
        assert(mapped.take(n as int) =~= mapped);
    }
    r
}

/// One line of the public-key listing.
pub open spec fn spec_render_key_entry(k: PublicKeyModel) -> Seq<char> {
    match k.uid {
        Some(u) => "  "@ + k.fpr + "  --  "@ + u,
        None => "  "@ + k.fpr,
    }
}

/// One listing line per public key, in listing order.
pub open spec fn spec_render_key_entries(keys: Seq<PublicKeyModel>) -> Seq<Seq<char>> {
    Seq::new(keys.len(), |i: int| spec_render_key_entry(keys[i]))
}

/// The lines of the public-key listing: a warning when the keyring has
/// none, a header and one line per key otherwise.
pub open spec fn spec_render_keys(keys: Seq<PublicKeyModel>) -> Seq<Seq<char>> {
    if keys.len() == 0 {
        seq!["No public keys found in your GPG keyring."@]
    } else {
        seq!["Public keys (recipients):"@] + spec_render_key_entries(keys)
    }
}

/// Render the public-key listing handed back by the crypto tool.
pub fn render_keys_lines(keys: &Vec<PublicKey>) -> (r: Vec<String>)
    ensures
        r.deep_view() == spec_render_keys(key_views_of(keys@)),
{
    let ghost models = key_views_of(keys@);
    let mut r: Vec<String> = Vec::new();
    if keys.len() == 0 {
        push_line(&mut r, String::from_str("No public keys found in your GPG keyring."));
        assert(r.deep_view() =~~= spec_render_keys(models));
        return r;
    }
    push_line(&mut r, String::from_str("Public keys (recipients):"));
    let ghost mapped = spec_render_key_entries(models);
    let n = keys.len();
    let mut i: usize = 0;
    while i < n
        invariant
            n == keys@.len(),
            models == key_views_of(keys@),
            mapped == spec_render_key_entries(models),
            i <= n,
            r.deep_view() =~~= seq!["Public keys (recipients):"@] + mapped.take(i as int),
        decreases n - i,
    {
        let k = &keys[i];
        let mut line = String::from_str("  ");
        line.append(k.fpr.as_str());
        match &k.uid {
            Some(u) => {
                line.append("  --  ");
                line.append(u.as_str());
            },
            None => {},
        }
        proof {
            assert(keys@[i as int]@ == models[i as int]);
            assert(line@ =~= spec_render_key_entry(models[i as int]));
        }
        push_line(&mut r, line);
        assert(r.deep_view() =~~= seq!["Public keys (recipients):"@] + mapped.take(i + 1));
        i += 1;
    }
    proof {
        assert(mapped.take(n as int) =~= mapped);
    }
    r
}

/// The lines of the identity report, from what the crypto tool said:
/// whether it could be run at all, its version line, and the secret-key
/// fingerprints it listed.
pub open spec fn spec_render_me(
    available: bool,
    version: Seq<char>,
    fprs: Seq<Seq<char>>,
) -> Seq<Seq<char>> {
    if !available {
        seq!["gpg not found."@]
    } else if fprs.len() == 0 {
        seq![version, "No secret keys found in your GPG keyring."@]
    } else {
        seq![version, "Secret key fingerprints:"@] + spec_indent_lines(fprs)
    }
}

/// Each piece indented by two spaces, in order.
pub open spec fn spec_indent_lines(pieces: Seq<Seq<char>>) -> Seq<Seq<char>> {
    Seq::new(pieces.len(), |i: int| "  "@ + pieces[i])
}

/// Render the identity report.
pub fn render_me_lines(available: bool, version: &str, fprs: &Vec<String>) -> (r: Vec<String>)
    ensures
        r.deep_view() == spec_render_me(available, version@, fprs.deep_view()),
{
    let mut r: Vec<String> = Vec::new();
    if !available {
        push_line(&mut r, String::from_str("gpg not found."));
        assert(r.deep_view() =~~= spec_render_me(available, version@, fprs.deep_view()));
        return r;
    }
    push_line(&mut r, String::from_str(version));
    if fprs.len() == 0 {
        push_line(&mut r, String::from_str("No secret keys found in your GPG keyring."));
        assert(r.deep_view() =~~= spec_render_me(available, version@, fprs.deep_view()));
        return r;
    }
    push_line(&mut r, String::from_str("Secret key fingerprints:"));
    let ghost mapped = spec_indent_lines(fprs.deep_view());
    let n = fprs.len();
    let mut i: usize = 0;
    while i < n
        invariant
            n == fprs@.len(),
            mapped == spec_indent_lines(fprs.deep_view()),
            i <= n,
            r.deep_view() =~~= seq![version@, "Secret key fingerprints:"@] + mapped.take(i as int),
        decreases n - i,
    {
        let mut line = String::from_str("  ");
        line.append(fprs[i].as_str());
        proof {
            assert(fprs@[i as int]@ == fprs.deep_view()[i as int]);
            assert(line@ =~= mapped[i as int]);
        }
        push_line(&mut r, line);
        assert(r.deep_view() =~~= seq![version@, "Secret key fingerprints:"@] + mapped.take(
            i + 1,
        ));
        i += 1;
    }
    proof {
        assert(mapped.take(n as int) =~= mapped);
    }
    r
}

/// The one line shown for the decrypt attempt on a freshly captured
/// inbound block, by outcome tier.
pub open spec fn spec_render_chat_decrypt(
    author: Seq<char>,
    id: Seq<char>,
    outcome: Result<Seq<char>, crate::classify::DecryptErrorModel>,
) -> Seq<char> {
    match outcome {
        Ok(pt) => spec_render_pgp_decrypted(author, id, pt),
        Err(e) => match e {
            crate::classify::DecryptErrorModel::NotForMe { .. } => spec_render_pgp_unknown(
                author,
                id,
            ),
            crate::classify::DecryptErrorModel::InvalidMessage { .. } => spec_render_pgp_invalid(
                author,
                id,
            ),
            crate::classify::DecryptErrorModel::GpgFailed { .. } => spec_render_pgp_error(
                author,
                id,
            ),
            crate::classify::DecryptErrorModel::Io(_) => spec_render_pgp_error(author, id),
        },
    }
}

/// Render the decrypt outcome for a freshly captured inbound block.
pub fn render_chat_decrypt(author: &str, id: &str, outcome: &Result<String, DecryptError>) -> (r:
    String)
    ensures
        r@ == spec_render_chat_decrypt(
            author@,
            id@,
            match outcome {
                Ok(pt) => Ok(pt@),
                Err(e) => Err(e@),
            },
        ),
{
    match outcome {
        Ok(pt) => render_pgp_decrypted(author, id, pt.as_str()),
        Err(e) => match e {
            DecryptError::NotForMe { .. } => render_pgp_unknown(author, id),
            DecryptError::InvalidMessage { .. } => render_pgp_invalid(author, id),
            DecryptError::GpgFailed { .. } => render_pgp_error(author, id),
            DecryptError::Io(_) => render_pgp_error(author, id),
        },
    }
}

/// The header shown before replaying fetched history: how many events
/// came back out of how many were asked for.
pub open spec fn spec_render_load_header(got: u64, asked: u64) -> Seq<char> {
    "Loading "@ + dec_of(got as nat) + "/"@ + dec_of(asked as nat) + " messages..."@
}

pub fn render_load_header(got: u64, asked: u64) -> (r: String)
    ensures
        r@ == spec_render_load_header(got, asked),
{
    let mut r = String::from_str("Loading ");
    let g = u64_to_dec(got);
    r.append(g.as_str());
    r.append("/");
    let a = u64_to_dec(asked);
    r.append(a.as_str());
    r.append(" messages...");
    assert(r@ =~= spec_render_load_header(got, asked));
    r
}

/// The warning shown when a history fetch returned nothing.
pub fn render_no_history() -> (r: String)
    ensures
        r@ == "No messages returned."@,
{
    String::from_str("No messages returned.")
}

} // verus!
