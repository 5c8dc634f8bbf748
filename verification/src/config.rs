//! The policy store: per-chat moderation policy, the global default action,
//! and the keyword groups the match engine evaluates.  Built once from plain
//! configuration values at startup and read-only afterwards.

use vstd::prelude::*;

use crate::chat::{ChatCategory, ChatInfo};
use crate::error::ConfigError;
use crate::text::{lower_of, lowercase};

verus! {

/// The disciplinary action applied to the sender of a detected scam.
#[derive(Debug, Clone, Copy, PartialEq, Eq, Structural)]
pub enum Action {
    /// Remove the sender so that they may rejoin.
    Kick,
    /// Remove the sender permanently.
    Ban,
    /// Take no disciplinary action (the message is still deleted).
    Ignore,
}

/// The action a token denotes: `kick`, `ban` or `none`, case-insensitively;
/// `None` for any other token.
pub open spec fn spec_action_of(tok: Seq<char>) -> Option<Action> {
    if lower_of(tok) == "kick"@ {
        Some(Action::Kick)
    } else if lower_of(tok) == "ban"@ {
        Some(Action::Ban)
    } else if lower_of(tok) == "none"@ {
        Some(Action::Ignore)
    } else {
        None
    }
}

impl Action {
    /// Parses an action token case-insensitively; any token other than
    /// `kick`, `ban` or `none` is rejected, carried back in the error.
    pub fn try_from(s: String) -> (r: Result<Action, ConfigError>)
        ensures
            r == match spec_action_of(s@) {
                Some(a) => Ok::<Action, ConfigError>(a),
                None => Err::<Action, ConfigError>(ConfigError::ActionError(s)),
            },
    {
        let low = lowercase(s.as_str());
        if low == String::from_str("kick") {
            Ok(Action::Kick)
        } else if low == String::from_str("ban") {
            Ok(Action::Ban)
        } else if low == String::from_str("none") {
            Ok(Action::Ignore)
        } else {
            Err(ConfigError::ActionError(s))
        }
    }
}

/// One chat entry of the configuration, as plain values: the chat's public
/// handle, an optional audit-log destination, and an optional action token.
#[derive(Debug, Clone, PartialEq, Eq)]
pub struct Group {
    /// The public handle under which the chat is listed.
    pub username: String,
    /// Where to announce removals, if anywhere.
    pub log_id: Option<i64>,
    /// The raw action token for this chat, if one was configured.
    pub action: Option<String>,
}

/// One keyword group: a scam is declared only if every keyword of some
/// group occurs in the extracted text.
#[derive(Debug, Clone, PartialEq, Eq)]
pub struct KeywordGroups {
    /// The keywords of this group, stored lower-cased.
    pub keywords: Vec<String>,
}

impl View for KeywordGroups {
    type V = Seq<Seq<char>>;

    open spec fn view(&self) -> Seq<Seq<char>> {
        self.keywords.deep_view()
    }
}

impl DeepView for KeywordGroups {
    type V = Seq<Seq<char>>;

    open spec fn deep_view(&self) -> Seq<Seq<char>> {
        self.view()
    }
}

/// A chat's resolved policy entry: audit-log destination and chat action.
#[derive(Debug, Clone, PartialEq, Eq)]
pub struct ChatPolicy {
    /// The public handle under which the chat is listed.
    pub username: String,
    /// Where to announce removals, if anywhere.
    pub log_id: Option<i64>,
    /// The chat-specific action, if one was configured.
    pub action: Option<Action>,
}

/// The policy entry for `name` among `entries`: the last entry listed under
/// that handle wins, as repeated configuration entries overwrite earlier ones.
pub open spec fn spec_lookup_entries(
    entries: Seq<ChatPolicy>,
    name: Seq<char>,
) -> Option<(Option<i64>, Option<Action>)>
    decreases entries.len(),
{
    if entries.len() == 0 {
        None
    } else if entries.last().username@ == name {
        Some((entries.last().log_id, entries.last().action))
    } else {
        spec_lookup_entries(entries.drop_last(), name)
    }
}

/// The policy store.
#[derive(Debug)]
pub struct Config {
    /// The platform credential, if the configuration supplies one.
    pub token: Option<String>,
    /// The global default action, applied where a chat sets none.
    pub default_action: Option<Action>,
    /// The chat entries, in configuration order; the last entry under a
    /// handle wins on lookup.
    pub groups: Vec<ChatPolicy>,
    /// The keyword groups the match engine evaluates.
    pub keywords_groups: Vec<KeywordGroups>,
}

impl Config {
    /// The chat entries, in configuration order.
    pub open spec fn spec_entries(self) -> Seq<ChatPolicy> {
        self.groups@
    }

    /// The policy entry stored for the handle `name`, if any.
    pub open spec fn spec_lookup_name(self, name: Seq<char>) -> Option<
        (Option<i64>, Option<Action>),
    > {
        spec_lookup_entries(self.spec_entries(), name)
    }

    /// The policy entry for `chat`: only a public supergroup with a handle
    /// listed in the store has one.
    pub open spec fn spec_chat_lookup(self, chat: ChatInfo) -> Option<
        (Option<i64>, Option<Action>),
    > {
        match chat.spec_handle() {
            Some(name) => self.spec_lookup_name(name),
            None => None,
        }
    }

    /// Whether `chat` is eligible for moderation at all.
    pub open spec fn spec_is_legit(self, chat: ChatInfo) -> bool {
        self.spec_chat_lookup(chat) is Some
    }

    /// The action to enforce against the sender of a scam in `chat`: the
    /// chat-specific action if set, else the global default, else `Ignore`.
    pub open spec fn spec_resolve(self, chat: ChatInfo) -> Action {
        match self.spec_chat_lookup(chat) {
            Some((_log, Some(a))) => a,
            Some((_log, None)) => match self.default_action {
                Some(d) => d,
                None => Action::Ignore,
            },
            None => Action::Ignore,
        }
    }
}

/// Whether a chat entry's action token, if it has one, is recognized.
pub open spec fn spec_group_ok(g: Group) -> bool {
    match g.action {
        Some(tok) => spec_action_of(tok@) is Some,
        None => true,
    }
}

/// Whether every chat entry's action token is recognized.
pub open spec fn spec_groups_ok(groups: Seq<Group>) -> bool {
    forall|i: int| 0 <= i < groups.len() ==> spec_group_ok(#[trigger] groups[i])
}

/// The policy entry a valid chat entry parses to.
pub open spec fn spec_policy_of(g: Group) -> ChatPolicy {
    ChatPolicy {
        username: g.username,
        log_id: g.log_id,
        action: match g.action {
            Some(tok) => spec_action_of(tok@),
            None => None,
        },
    }
}

/// The policy entries that a sequence of valid chat entries parses to.
pub open spec fn spec_entries_of(groups: Seq<Group>) -> Seq<ChatPolicy> {
    Seq::new(groups.len(), |i: int| spec_policy_of(groups[i]))
}

/// The action an optional token denotes, where the token is valid.
pub open spec fn spec_default_of(default_action: Option<String>) -> Option<Action> {
    match default_action {
        Some(t) => spec_action_of(t@),
        None => None,
    }
}

/// The first `n` groups of `lowered` are, keyword for keyword, the
/// lower-cased forms of the corresponding groups of `orig`.
pub open spec fn spec_keywords_lowered(
    lowered: Seq<Seq<Seq<char>>>,
    orig: Seq<Seq<Seq<char>>>,
    n: int,
) -> bool {
    &&& forall|m: int| 0 <= m < n ==> #[trigger] lowered[m].len() == orig[m].len()
    &&& forall|m: int, k: int|
        0 <= m < n && 0 <= k < orig[m].len() ==> #[trigger] lowered[m][k] == lower_of(orig[m][k])
}

/// Whether the optional default token is acceptable (absent or recognized).
pub open spec fn spec_default_ok(default_action: Option<String>) -> bool {
    match default_action {
        Some(t) => spec_action_of(t@) is Some,
        None => true,
    }
}

impl Config {
    /// Builds the policy store from plain configuration values.  Fails if no
    /// chat entry or no keyword group is supplied, or if an action token is
    /// not recognized; on success all keywords are stored lower-cased.
    pub fn new(
        token: Option<String>,
        default_action: Option<String>,
        groups: Vec<Group>,
        keywords_groups: Vec<KeywordGroups>,
    ) -> (r: Result<Config, ConfigError>)
        ensures
            groups@.len() == 0 ==> r == Err::<Config, ConfigError>(ConfigError::NoGroup),
            groups@.len() != 0 && keywords_groups@.len() == 0 ==> r == Err::<
                Config,
                ConfigError,
            >(ConfigError::NoKeywordsGroup),
            groups@.len() != 0 && keywords_groups@.len() != 0 && !spec_groups_ok(groups@)
                ==> exists|i: int|
                {
                    &&& 0 <= i < groups@.len()
                    &&& !spec_group_ok(#[trigger] groups@[i])
                    &&& forall|m: int| 0 <= m < i ==> spec_group_ok(#[trigger] groups@[m])
                    &&& r == Err::<Config, ConfigError>(
                        ConfigError::ActionError(groups@[i].action.unwrap()),
                    )
                },
            groups@.len() != 0 && keywords_groups@.len() != 0 && spec_groups_ok(groups@)
                && !spec_default_ok(default_action) ==> r == Err::<Config, ConfigError>(
                ConfigError::ActionError(default_action.unwrap()),
            ),
            r is Ok <==> groups@.len() != 0 && keywords_groups@.len() != 0 && spec_groups_ok(
                groups@,
            ) && spec_default_ok(default_action),
            r matches Ok(cfg) ==> {
                &&& cfg.token == token
                &&& cfg.default_action == spec_default_of(default_action)
                &&& cfg.spec_entries() =~= spec_entries_of(groups@)
                &&& cfg.keywords_groups.deep_view().len() == keywords_groups.deep_view().len()
                &&& spec_keywords_lowered(
                    cfg.keywords_groups.deep_view(),
                    keywords_groups.deep_view(),
                    keywords_groups.deep_view().len() as int,
                )
            },
    {
        if groups.len() == 0 {
            return Err(ConfigError::NoGroup);
        }
        if keywords_groups.len() == 0 {
            return Err(ConfigError::NoKeywordsGroup);
        }
        let mut remaining = groups;
        let ghost orig_groups = remaining@;
        proof {
            assert(orig_groups == groups@);
            assert(groups@.len() != 0);
            assert(keywords_groups@.len() != 0);
        }
        let mut entries: Vec<ChatPolicy> = Vec::new();
        let ghost mut idx: int = 0;
        while remaining.len() > 0
            invariant
                orig_groups == groups@,
                orig_groups.len() != 0,
                keywords_groups@.len() != 0,
                0 <= idx,
                idx + remaining@.len() == orig_groups.len(),
                remaining@ =~= orig_groups.skip(idx),
                forall|m: int| 0 <= m < idx ==> spec_group_ok(#[trigger] orig_groups[m]),
                entries@ =~= spec_entries_of(orig_groups).take(idx),
            decreases remaining@.len(),
        {
            let g = remaining.remove(0);
            proof {
                assert(g == orig_groups[idx]);
            }
            let Group { username, log_id, action } = g;
            let parsed: Option<Action> = match action {
                Some(tok) => match Action::try_from(tok) {
                    Ok(a) => Some(a),
                    Err(e) => {
                        proof {
                            assert(!spec_group_ok(orig_groups[idx]));
                            assert(!spec_groups_ok(orig_groups));
                        }
                        return Err(e);
                    },
                },
                None => None,
            };
            entries.push(ChatPolicy { username, log_id, action: parsed });
            proof {
                assert(entries@.last() == spec_policy_of(orig_groups[idx]));
                assert(entries@ =~= spec_entries_of(orig_groups).take(idx + 1));
                assert(remaining@ =~= orig_groups.skip(idx + 1));
                idx = idx + 1;
            }
        }
        proof {
            assert(spec_entries_of(orig_groups).take(idx) =~= spec_entries_of(orig_groups));
        }
        let mut lowered: Vec<KeywordGroups> = Vec::new();
        let mut i: usize = 0;
        while i < keywords_groups.len()
            invariant
                i <= keywords_groups@.len(),
                lowered@.len() == i,
                spec_keywords_lowered(lowered.deep_view(), keywords_groups.deep_view(), i as int),
            decreases keywords_groups@.len() - i,
        {
            let src = &keywords_groups[i];
            let mut kws: Vec<String> = Vec::new();
            let mut k: usize = 0;
            while k < src.keywords.len()
                invariant
                    k <= src.keywords@.len(),
                    kws@.len() == k,
                    src == keywords_groups@[i as int],
                    i < keywords_groups@.len(),
                    forall|m: int|
                        0 <= m < k ==> #[trigger] kws@[m]@ == lower_of(src.keywords@[m]@),
                decreases src.keywords@.len() - k,
            {
                kws.push(lowercase(src.keywords[k].as_str()));
                k = k + 1;
            }
            let ghost kws_seq = kws@;
            let ghost pre_vals = lowered@;
            let ghost pre_deep = lowered.deep_view();
            lowered.push(KeywordGroups { keywords: kws });
            proof {
                let gi = i as int;
                let ld = lowered.deep_view();
                let od = keywords_groups.deep_view();
                assert(lowered@[gi].keywords@ == kws_seq);
                assert(ld[gi] =~= lowered@[gi]@);
                assert(od[gi] =~= keywords_groups@[gi]@);
                assert(kws_seq.len() == keywords_groups@[gi].keywords@.len());
                assert forall|m: int| 0 <= m < gi + 1 implies #[trigger] ld[m].len()
                    == od[m].len() by {
                    if m < gi {
                        assert(lowered@[m] == pre_vals[m]);
                        assert(ld[m] == pre_deep[m]);
                    } else {
                        assert(ld[gi].len() == kws_seq.len());
                        assert(od[gi].len() == keywords_groups@[gi].keywords@.len());
                    }
                }
                assert forall|m: int, kk: int|
                    0 <= m < gi + 1 && 0 <= kk < od[m].len() implies #[trigger] ld[m][kk]
                    == lower_of(od[m][kk]) by {
                    if m < gi {
                        assert(lowered@[m] == pre_vals[m]);
                        assert(ld[m] == pre_deep[m]);
                        assert(pre_deep[m][kk] == lower_of(od[m][kk]));
                    } else {
                        assert(ld[gi][kk] == kws_seq[kk]@);
                        assert(od[gi][kk] == keywords_groups@[gi].keywords@[kk]@);
                        assert(kws_seq[kk]@ == lower_of(keywords_groups@[gi].keywords@[kk]@));
                    }
                }
            }
            i = i + 1;
        }
        let default_parsed: Option<Action> = match default_action {
            Some(t) => match Action::try_from(t) {
                Ok(a) => Some(a),
                Err(e) => {
                    return Err(e);
                },
            },
            None => None,
        };
        Ok(Config { token, default_action: default_parsed, groups: entries, keywords_groups: lowered })
    }

    /// The policy entry stored for the handle `name`, if any; the last entry
    /// listed under a handle wins, as repeated entries overwrite earlier ones.
    fn lookup_name(&self, name: &String) -> (r: Option<(Option<i64>, Option<Action>)>)
        ensures
            r == self.spec_lookup_name(name@),
    {
        proof {
            assert(self.groups@.take(self.groups@.len() as int) =~= self.groups@);
        }
        let mut idx: usize = self.groups.len();
        while idx > 0
            invariant
                idx <= self.groups@.len(),
                spec_lookup_entries(self.groups@, name@) == spec_lookup_entries(
                    self.groups@.take(idx as int),
                    name@,
                ),
            decreases idx,
        {
            idx = idx - 1;
            let e = &self.groups[idx];
            proof {
                let pre = self.groups@.take(idx as int + 1);
                assert(pre.last() == self.groups@[idx as int]);
                assert(pre.drop_last() =~= self.groups@.take(idx as int));
            }
            if e.username == *name {
                return Some((e.log_id, e.action));
            }
        }
        proof {
            assert(self.groups@.take(0) =~= Seq::<ChatPolicy>::empty());
        }
        None
    }

    /// The policy entry for `chat`, if the store lists it.
    fn get_from_config(&self, chat: &ChatInfo) -> (r: Option<(Option<i64>, Option<Action>)>)
        ensures
            r == self.spec_chat_lookup(*chat),
    {
        match &chat.category {
            ChatCategory::Supergroup { username: Some(name) } => self.lookup_name(name),
            _ => None,
        }
    }

    /// Whether `chat` is listed in the store and hence eligible for moderation.
    pub fn is_chat_legit(&self, chat: &ChatInfo) -> (r: bool)
        ensures
            r == self.spec_is_legit(*chat),
    {
        self.get_from_config(chat).is_some()
    }

    /// The audit-log destination configured for `chat`, if any.
    pub fn get_log_id(&self, chat: &ChatInfo) -> (r: Option<i64>)
        requires
            self.spec_chat_lookup(*chat) is Some,
        ensures
            r == self.spec_chat_lookup(*chat).unwrap().0,
    {
        self.get_from_config(chat).unwrap().0
    }

    /// The chat-specific action configured for `chat`, if any.
    pub fn get_group_action(&self, chat: &ChatInfo) -> (r: Option<Action>)
        requires
            self.spec_chat_lookup(*chat) is Some,
        ensures
            r == self.spec_chat_lookup(*chat).unwrap().1,
    {
        self.get_from_config(chat).unwrap().1
    }

    /// Resolves the enforcement action for `chat`: the chat-specific action
    /// if set, else the global default, else `Ignore`.
    pub fn resolve(&self, chat: &ChatInfo) -> (r: Action)
        requires
            self.spec_chat_lookup(*chat) is Some,
        ensures
            r == self.spec_resolve(*chat),
    {
        match self.get_group_action(chat) {
            Some(a) => a,
            None => match self.default_action {
                Some(d) => d,
                None => Action::Ignore,
            },
        }
    }
}

/// A chat-specific action decides the outcome on its own: whatever the
/// global default is, `resolve` returns the chat's own action.
pub proof fn lemma_chat_action_overrides_default(
    config: Config,
    chat: ChatInfo,
    log_id: Option<i64>,
    a: Action,
)
    requires
        config.spec_chat_lookup(chat) == Some((log_id, Some(a))),
    ensures
        config.spec_resolve(chat) == a,
{
}

/// Where a chat sets no action and no global default exists, `resolve`
/// returns `Ignore`.
pub proof fn lemma_no_action_no_default_ignores(config: Config, chat: ChatInfo, log_id: Option<i64>)
    requires
        config.spec_chat_lookup(chat) == Some((log_id, None::<Action>)),
        config.default_action is None,
    ensures
        config.spec_resolve(chat) == Action::Ignore,
{
}

} // verus!
