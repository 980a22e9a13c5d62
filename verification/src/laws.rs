//! What holds of the registry whatever is asked of it, proved over the
//! functions of [`crate::registry`].

use vstd::prelude::*;
use crate::registry::{
    after_change_url,
    after_create,
    after_redirect,
    can_count,
    change_url_reply,
    create_reply,
    redirect_reply,
    stats_reply,
    LinkRecord,
    Registry,
};
use crate::types::{stats_reply_view, LinkView, ShortenerError, Stats, StatsView};
use crate::url::is_valid_url;

verus! {

/// A command, by what it asks. A request to create a link without naming a
/// slug stands here with the slug that was drawn for it.
pub enum Command {
    Create { url: Seq<char>, slug: Seq<char> },
    Redirect { slug: Seq<char> },
    ChangeUrl { slug: Seq<char>, new_url: Seq<char> },
}

/// The registry after one command.
pub open spec fn apply(reg: Registry, command: Command) -> Registry {
    match command {
        Command::Create { url, slug } => after_create(reg, url, slug),
        Command::Redirect { slug } => after_redirect(reg, slug),
        Command::ChangeUrl { slug, new_url } => after_change_url(reg, slug, new_url),
    }
}

/// The registry after a series of commands, the first of them first.
pub open spec fn run(reg: Registry, commands: Seq<Command>) -> Registry
    decreases commands.len(),
{
    if commands.len() == 0 {
        reg
    } else {
        apply(run(reg, commands.drop_last()), commands.last())
    }
}

/// How many of `commands` ask to resolve `slug`.
pub open spec fn redirects_of(commands: Seq<Command>, slug: Seq<char>) -> nat
    decreases commands.len(),
{
    if commands.len() == 0 {
        0
    } else {
        let earlier = redirects_of(commands.drop_last(), slug);
        if commands.last() == (Command::Redirect { slug }) {
            earlier + 1
        } else {
            earlier
        }
    }
}

/// Whether one of `commands` asks to create `slug`.
pub open spec fn asks_to_create(commands: Seq<Command>, slug: Seq<char>) -> bool {
    exists|i: int|
        0 <= i < commands.len() && (#[trigger] commands[i]) is Create && commands[i]->Create_slug
            == slug
}

/// No command removes a slug, lowers a counter, or gives a known slug
/// another address except a successful request to change it. Only a request
/// to resolve a slug raises its counter, and by exactly one.
pub proof fn lemma_one_command(reg: Registry, command: Command, slug: Seq<char>)
    requires
        reg.contains_key(slug),
    ensures
        apply(reg, command).contains_key(slug),
        apply(reg, command)[slug].redirects == reg[slug].redirects + (if command
            == (Command::Redirect { slug }) {
            1nat
        } else {
            0nat
        }),
        !(command is ChangeUrl) ==> apply(reg, command)[slug].url == reg[slug].url,
{
}

/// A slug that was created stays taken: after any further commands, a
/// request to create it again for a valid URL is refused with
/// `SlugAlreadyInUse`, and leaves the registry as it was.
pub proof fn lemma_created_slug_stays_taken(
    reg: Registry,
    url: Seq<char>,
    slug: Seq<char>,
    later: Seq<Command>,
    again: Seq<char>,
)
    requires
        create_reply(reg, url, slug) is Ok,
        is_valid_url(again),
    ensures
        create_reply(run(after_create(reg, url, slug), later), again, slug) == Err::<
            LinkView,
            _,
        >(ShortenerError::SlugAlreadyInUse),
        after_create(run(after_create(reg, url, slug), later), again, slug) == run(
            after_create(reg, url, slug),
            later,
        ),
{
    lemma_redirects_are_counted(after_create(reg, url, slug), slug, later);
}

/// A link starts with no redirects.
pub proof fn lemma_new_link_has_no_redirects(reg: Registry, url: Seq<char>, slug: Seq<char>)
    requires
        create_reply(reg, url, slug) is Ok,
    ensures
        stats_reply(after_create(reg, url, slug), slug) == Ok::<_, ShortenerError>(
            StatsView { link: LinkView { slug, url }, redirects: 0 },
        ),
{
}

/// The counter of a known slug grows by the number of requests to resolve
/// it, whatever else is asked in between; the slug stays known.
pub proof fn lemma_redirects_are_counted(reg: Registry, slug: Seq<char>, commands: Seq<Command>)
    requires
        reg.contains_key(slug),
    ensures
        run(reg, commands).contains_key(slug),
        run(reg, commands)[slug].redirects == reg[slug].redirects + redirects_of(commands, slug),
    decreases commands.len(),
{
    if commands.len() > 0 {
        lemma_redirects_are_counted(reg, slug, commands.drop_last());
        lemma_one_command(run(reg, commands.drop_last()), commands.last(), slug);
    }
}

/// After a link is created and then resolved `n` times, with any other
/// commands in between, its statistics show `n` redirects.
pub proof fn lemma_stats_count_redirects(
    reg: Registry,
    url: Seq<char>,
    slug: Seq<char>,
    later: Seq<Command>,
)
    requires
        create_reply(reg, url, slug) is Ok,
    ensures
        stats_reply(run(after_create(reg, url, slug), later), slug) matches Ok(stats)
            && stats.redirects == redirects_of(later, slug),
{
    lemma_redirects_are_counted(after_create(reg, url, slug), slug, later);
}

/// Once the address of a link has been changed, the next request to resolve
/// its slug returns the new address. The change leaves the counter where it
/// was, so a slug that could be resolved before the change can be resolved
/// after it.
pub proof fn lemma_changed_url_is_served(reg: Registry, slug: Seq<char>, new_url: Seq<char>)
    requires
        change_url_reply(reg, slug, new_url) is Ok,
    ensures
        redirect_reply(after_change_url(reg, slug, new_url), slug) == Ok::<_, ShortenerError>(
            LinkView { slug, url: new_url },
        ),
        stats_reply(after_change_url(reg, slug, new_url), slug) matches Ok(stats) && stats.link
            == (LinkView { slug, url: new_url }),
        can_count(reg, slug) ==> can_count(after_change_url(reg, slug, new_url), slug),
{
}

/// A slug that the registry does not know is reported as not found by every
/// operation that looks one up, and none of them changes the registry. For a
/// change of address this is said of valid addresses: an invalid one is
/// refused as such before the slug is looked at.
pub proof fn lemma_unknown_slug_is_not_found(reg: Registry, slug: Seq<char>, new_url: Seq<char>)
    requires
        !reg.contains_key(slug),
        is_valid_url(new_url),
    ensures
        redirect_reply(reg, slug) == Err::<LinkView, _>(ShortenerError::SlugNotFound),
        change_url_reply(reg, slug, new_url) == Err::<LinkView, _>(ShortenerError::SlugNotFound),
        stats_reply(reg, slug) == Err::<StatsView, _>(ShortenerError::SlugNotFound),
        after_redirect(reg, slug) == reg,
        after_change_url(reg, slug, new_url) == reg,
{
}

/// A slug that no command asked to create is unknown, however many commands
/// have run since the registry was empty.
pub proof fn lemma_never_created_is_unknown(commands: Seq<Command>, slug: Seq<char>)
    requires
        !asks_to_create(commands, slug),
    ensures
        !run(Map::<Seq<char>, LinkRecord>::empty(), commands).contains_key(slug),
    decreases commands.len(),
{
    if commands.len() > 0 {
        let earlier = commands.drop_last();
        assert forall|i: int| 0 <= i < earlier.len() && (#[trigger] earlier[i]) is Create implies earlier[i]->Create_slug
            != slug by {
            assert(commands[i] == earlier[i]);
        }
        lemma_never_created_is_unknown(earlier, slug);
        assert(commands.last() == commands[commands.len() - 1]);
    }
}

/// Two answers to the same query of the same registry say the same.
pub proof fn lemma_stats_can_be_read_again(
    reg: Registry,
    slug: Seq<char>,
    first: Result<Stats, ShortenerError>,
    second: Result<Stats, ShortenerError>,
)
    requires
        stats_reply_view(first) == stats_reply(reg, slug),
        stats_reply_view(second) == stats_reply(reg, slug),
    ensures
        stats_reply_view(first) == stats_reply_view(second),
        first is Ok ==> second is Ok && first->Ok_0@ == second->Ok_0@,
        first matches Err(error) ==> second == Err::<Stats, _>(error),
{
}

} // verus!
