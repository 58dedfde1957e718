//! What the other mod loader is given to start the game: the arguments of
//! the boot loader, which it keeps in its settings, and what of those
//! settings has to be changed.

use crate::ashita::{Credentials, CredentialsView};
use crate::config::profiles::{Profile, ProfileView};
use vstd::prelude::*;
use vstd::string::StringExecFns;

verus! {

/// The words of a list with a blank between each two.
pub open spec fn join_words(words: Seq<Seq<char>>) -> Seq<char>
    decreases words.len(),
{
    if words.len() == 0 {
        Seq::empty()
    } else if words.len() == 1 {
        words[0]
    } else {
        join_words(words.drop_last()) + seq![' '] + words.last()
    }
}

/// The arguments of the boot loader, one entry for each thing told: the
/// server, the way through the router, the account with its password, the
/// token file. A retail profile and one that signs in by hand tell nothing.
pub open spec fn boot_words(profile: ProfileView, credentials: Option<CredentialsView>) -> Seq<
    Seq<char>,
> {
    if profile.manual_auth || profile.is_retail {
        Seq::empty()
    } else {
        (match profile.server {
            Some(server) => seq!["--server "@ + server],
            None => Seq::empty(),
        }) + (if profile.hairpin {
            seq!["--hairpin"@]
        } else {
            Seq::empty()
        }) + (match credentials {
            Some(c) => (match c.password {
                Some(password) => seq!["--user "@ + c.account_name + " --pass "@ + password],
                None => Seq::empty(),
            }) + (match c.token_file {
                Some(file) => seq!["--tokenfile "@ + file],
                None => Seq::empty(),
            }),
            None => Seq::empty(),
        })
    }
}

/// Joining one word more joins it behind a blank, or alone where it is the first.
pub proof fn lemma_join_push(words: Seq<Seq<char>>, word: Seq<char>)
    ensures
        join_words(words.push(word)) == if words.len() == 0 {
            word
        } else {
            join_words(words) + seq![' '] + word
        },
{
    assert(words.push(word).drop_last() =~= words);
    if words.len() == 0 {
        assert(words.push(word)[0] == word);
    }
}

fn push_word(text: &mut String, count: &mut usize, word: &str, Ghost(words): Ghost<Seq<Seq<char>>>)
    requires
        old(text)@ == join_words(words),
        *old(count) == words.len(),
        words.len() < 8,
    ensures
        final(text)@ == join_words(words.push(word@)),
        *final(count) == words.len() + 1,
{
    proof {
        lemma_join_push(words, word@);
    }
    if *count > 0 {
        text.push(' ');
    } else {
        assert(text@ =~= Seq::<char>::empty());
        assert(Seq::<char>::empty() + word@ =~= word@);
    }
    text.append(word);
    *count = *count + 1;
}

/// The arguments of the boot loader for a profile, as one text.
pub fn launch_game(profile: &Profile, credentials: &Option<Credentials>) -> (r: String)
    ensures
        r@ == join_words(boot_words(profile@, credentials.deep_view())),
{
    let mut text = String::new();
    let mut count: usize = 0;
    let ghost mut words: Seq<Seq<char>> = Seq::empty();
    if profile.manual_auth || profile.is_retail {
        return text;
    }
    match &profile.server {
        Some(server) => {
            let word = "--server ".to_owned().concat(server.as_str());
            push_word(&mut text, &mut count, word.as_str(), Ghost(words));
            proof {
                words = words.push(word@);
            }
        },
        None => {},
    }
    if profile.hairpin {
        push_word(&mut text, &mut count, "--hairpin", Ghost(words));
        proof {
            words = words.push("--hairpin"@);
        }
    }
    match credentials {
        Some(c) => {
            match &c.password {
                Some(password) => {
                    let mut word = "--user ".to_owned();
                    word.append(c.account_name.as_str());
                    word.append(" --pass ");
                    word.append(password.as_str());
                    push_word(&mut text, &mut count, word.as_str(), Ghost(words));
                    proof {
                        words = words.push(word@);
                    }
                },
                None => {},
            }
            match &c.token_file {
                Some(file) => {
                    let word = "--tokenfile ".to_owned().concat(file.as_str());
                    push_word(&mut text, &mut count, word.as_str(), Ghost(words));
                    proof {
                        words = words.push(word@);
                    }
                },
                None => {},
            }
        },
        None => {},
    }
    assert(words =~= boot_words(profile@, credentials.deep_view()));
    text
}

/// What has to be done to a field of the settings.
#[derive(Debug, Clone, Copy, PartialEq, Eq, Structural)]
pub enum FieldChange {
    /// The field holds what is wanted.
    Keep,
    /// The field is there and holds something else.
    Replace,
    /// The field is not there.
    Create,
}

/// What has to be done to a field that holds `existing`, or is not there,
/// so that it holds `wanted`.
pub open spec fn change_of(existing: Option<Seq<char>>, wanted: Seq<char>) -> FieldChange {
    match existing {
        Some(text) => if text == wanted {
            FieldChange::Keep
        } else {
            FieldChange::Replace
        },
        None => FieldChange::Create,
    }
}

/// What has to be done to a field that holds `existing`, or is not there,
/// so that it holds `wanted`.
pub fn field_change(existing: &Option<String>, wanted: &str) -> (r: FieldChange)
    ensures
        r == change_of(existing.deep_view(), wanted@),
{
    match existing {
        Some(text) => if *text == wanted.to_owned() {
            FieldChange::Keep
        } else {
            FieldChange::Replace
        },
        None => FieldChange::Create,
    }
}

/// What has to be done to a profile in the mod loader's settings.
#[derive(Debug, Clone, Copy, PartialEq, Eq, Structural)]
pub struct ProfileChange {
    /// What has to be done to the boot loader's arguments.
    pub args: FieldChange,
    /// What has to be done to the boot loader's path.
    pub executable: FieldChange,
    /// Do the settings have to be written anew?
    pub needs_update: bool,
}

/// What has to be done to a profile in the mod loader's settings so that
/// it holds the arguments and the path wanted. The settings are written
/// anew exactly when one of the two fields does not hold what is wanted.
pub fn update_windower_profile(
    existing_args: &Option<String>,
    wanted_args: &str,
    existing_executable: &Option<String>,
    wanted_executable: &str,
) -> (r: ProfileChange)
    ensures
        r.args == change_of(existing_args.deep_view(), wanted_args@),
        r.executable == change_of(existing_executable.deep_view(), wanted_executable@),
        r.needs_update == (r.args != FieldChange::Keep || r.executable != FieldChange::Keep),
{
    let args = field_change(existing_args, wanted_args);
    let executable = field_change(existing_executable, wanted_executable);
    let needs_update = match (args, executable) {
        (FieldChange::Keep, FieldChange::Keep) => false,
        _ => true,
    };
    ProfileChange { args, executable, needs_update }
}

} // verus!
