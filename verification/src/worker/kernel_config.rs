//! Kernel configuration: what a task requires of it, what a configuration text says, and where
//! the two disagree.

use vstd::prelude::*;

use crate::task;
use crate::text;
use crate::worker::error::{runtime, Error};

verus! {

/// The value of a kernel configuration symbol: built in, built as a module, or left out.
#[derive(Debug, Clone, Copy, PartialEq, Eq, Structural)]
pub enum KernelConfigValue {
    Yes,
    Module,
    No,
}

impl KernelConfigValue {
    /// The value that a character stands for.
    pub open spec fn of_char(value: char) -> Option<KernelConfigValue> {
        if value == 'y' {
            Some(KernelConfigValue::Yes)
        } else if value == 'm' {
            Some(KernelConfigValue::Module)
        } else if value == 'n' {
            Some(KernelConfigValue::No)
        } else {
            None
        }
    }

    /// The character that stands for the value.
    pub open spec fn char(self) -> char {
        match self {
            KernelConfigValue::Yes => 'y',
            KernelConfigValue::Module => 'm',
            KernelConfigValue::No => 'n',
        }
    }

    pub fn from_char(value: char) -> (r: Option<KernelConfigValue>)
        ensures
            r == KernelConfigValue::of_char(value),
    {
        match value {
            'y' => Some(KernelConfigValue::Yes),
            'm' => Some(KernelConfigValue::Module),
            'n' => Some(KernelConfigValue::No),
            _ => None,
        }
    }

    pub fn as_char(self) -> (r: char)
        ensures
            r == self.char(),
    {
        match self {
            KernelConfigValue::Yes => 'y',
            KernelConfigValue::Module => 'm',
            KernelConfigValue::No => 'n',
        }
    }
}

/// Reading the character of a value gives the value back, and a character that reads as a value
/// is that value's character.
pub proof fn law_value_characters(value: KernelConfigValue, c: char)
    ensures
        KernelConfigValue::of_char(value.char()) == Some(value),
        KernelConfigValue::of_char(c) matches Some(v) ==> v.char() == c,
{
}

/// A symbol that a task needs to have a certain value.
#[derive(Debug, PartialEq, Eq)]
pub struct KernelConfigRequirement {
    pub symbol: String,
    pub expected: KernelConfigValue,
}

/// Whether a requirement asks for `expected` of `symbol`.
pub open spec fn requires_value(
    requirement: KernelConfigRequirement,
    symbol: Seq<char>,
    expected: KernelConfigValue,
) -> bool {
    requirement.symbol@ == symbol && requirement.expected == expected
}

/// The values of kernel configuration symbols. Of several values for one symbol the latest
/// counts.
#[derive(Debug)]
pub struct KernelConfig {
    entries: Vec<(String, KernelConfigValue)>,
}

/// The table that a list of entries amounts to.
pub closed spec fn table(entries: Seq<(String, KernelConfigValue)>) -> Map<
    Seq<char>,
    KernelConfigValue,
>
    decreases entries.len(),
{
    if entries.len() == 0 {
        Map::empty()
    } else {
        table(entries.drop_last()).insert(entries.last().0@, entries.last().1)
    }
}

impl View for KernelConfig {
    type V = Map<Seq<char>, KernelConfigValue>;

    closed spec fn view(&self) -> Map<Seq<char>, KernelConfigValue> {
        table(self.entries@)
    }
}

impl KernelConfig {
    pub fn new() -> (r: KernelConfig)
        ensures
            r@ == Map::<Seq<char>, KernelConfigValue>::empty(),
    {
        KernelConfig { entries: Vec::new() }
    }

    pub fn insert(&mut self, symbol: String, value: KernelConfigValue)
        ensures
            final(self)@ == old(self)@.insert(symbol@, value),
    {
        self.entries.push((symbol, value));
        assert(self.entries@.drop_last() =~= old(self).entries@);
    }

    pub fn get(&self, symbol: &str) -> (r: Option<KernelConfigValue>)
        ensures
            r == (if self@.dom().contains(symbol@) {
                Some(self@[symbol@])
            } else {
                None
            }),
    {
        let mut i: usize = self.entries.len();
        assert(self.entries@.take(i as int) =~= self.entries@);
        while i > 0
            invariant
                i <= self.entries@.len(),
                self@.dom().contains(symbol@) == table(self.entries@.take(i as int)).dom().contains(
                    symbol@,
                ),
                self@[symbol@] == table(self.entries@.take(i as int))[symbol@] || !self@.dom().contains(symbol@),
            decreases i,
        {
            i = i - 1;
            let entry = &self.entries[i];
            proof {
                assert(self.entries@.take(i + 1).drop_last() =~= self.entries@.take(i as int));
                assert(self.entries@.take(i + 1).last() == *entry);
            }
            if text::same(entry.0.as_str(), symbol) {
                return Some(entry.1);
            }
        }
        None
    }
}

/// What is wrong with an entry of `required_kernel_config`, or what it requires.
pub open spec fn requirement_of(value: Seq<char>) -> Result<
    (Seq<char>, KernelConfigValue),
    Seq<char>,
> {
    let value = text::trimmed(value);
    match text::split_once_at(value, '=') {
        None => Err(
            "Invalid vm.required_kernel_config entry '"@ + value
                + "': expected CONFIG_FOO=y|m|n"@,
        ),
        Some((symbol, expected)) => {
            if !task::config_prefixed(symbol) || !task::symbol_chars(symbol) {
                Err(
                    "Invalid vm.required_kernel_config symbol '"@ + symbol + "' in '"@ + value
                        + "' (expected CONFIG_FOO)"@,
                )
            } else if expected == "y"@ {
                Ok((symbol, KernelConfigValue::Yes))
            } else if expected == "m"@ {
                Ok((symbol, KernelConfigValue::Module))
            } else if expected == "n"@ {
                Ok((symbol, KernelConfigValue::No))
            } else {
                Err(
                    "Invalid vm.required_kernel_config value '"@ + expected + "' in '"@ + value
                        + "' (expected y|m|n)"@,
                )
            }
        },
    }
}

/// Reads an entry of `required_kernel_config`.
pub fn parse_kernel_config_requirement(value: &str) -> (r: Result<KernelConfigRequirement, Error>)
    ensures
        match r {
            Ok(requirement) => requirement_of(value@) matches Ok(p) && requires_value(
                requirement,
                p.0,
                p.1,
            ),
            Err(err) => requirement_of(value@) matches Err(message) && err.is_runtime(message),
        },
{
    let value = text::trim(value);
    let (symbol, expected) = match text::split_once(value.as_str(), '=') {
        Some(parts) => parts,
        None => {
            return Err(
                runtime(
                    text::cat3(
                        "Invalid vm.required_kernel_config entry '",
                        value.as_str(),
                        "': expected CONFIG_FOO=y|m|n",
                    ),
                ),
            );
        },
    };
    if !task::is_config_prefixed(symbol.as_str()) || !task::is_symbol_text(symbol.as_str()) {
        return Err(
            runtime(
                text::cat5(
                    "Invalid vm.required_kernel_config symbol '",
                    symbol.as_str(),
                    "' in '",
                    value.as_str(),
                    "' (expected CONFIG_FOO)",
                ),
            ),
        );
    }
    if text::same(expected.as_str(), "y") {
        Ok(KernelConfigRequirement { symbol, expected: KernelConfigValue::Yes })
    } else if text::same(expected.as_str(), "m") {
        Ok(KernelConfigRequirement { symbol, expected: KernelConfigValue::Module })
    } else if text::same(expected.as_str(), "n") {
        Ok(KernelConfigRequirement { symbol, expected: KernelConfigValue::No })
    } else {
        Err(
            runtime(
                text::cat5(
                    "Invalid vm.required_kernel_config value '",
                    expected.as_str(),
                    "' in '",
                    value.as_str(),
                    "' (expected y|m|n)",
                ),
            ),
        )
    }
}

/// An entry is accepted when a task is loaded exactly if it can be read when the task runs.
pub proof fn law_accepted_entries_can_be_read(value: Seq<char>)
    ensures
        task::required_kernel_config_entry_fault(value) is None <==> requirement_of(value) is Ok,
{
    if text::trimmed(value).len() == 0 {
        text::lemma_first_index(text::trimmed(value), '=');
    }
}

/// The symbol that a line says is not set.
pub open spec fn not_set_symbol(line: Seq<char>) -> Option<Seq<char>> {
    match text::after_prefix(line, "# CONFIG_"@) {
        None => None,
        Some(rest) => match text::before_suffix(rest, " is not set"@) {
            None => None,
            Some(symbol) => Some("CONFIG_"@ + symbol),
        },
    }
}

/// The symbol that a line assigns a one-character value to, with that value.
pub open spec fn assigned_symbol(line: Seq<char>) -> Option<(Seq<char>, KernelConfigValue)> {
    match text::split_once_at(line, '=') {
        None => None,
        Some((symbol, value)) => if "CONFIG_"@.is_prefix_of(symbol) && task::symbol_chars(symbol)
            && value.len() == 1 {
            match KernelConfigValue::of_char(value[0]) {
                Some(v) => Some((symbol, v)),
                None => None,
            }
        } else {
            None
        },
    }
}

/// What a line of a configuration text says.
pub open spec fn line_says(line: Seq<char>) -> Option<(Seq<char>, KernelConfigValue)> {
    let line = text::trimmed(line);
    match not_set_symbol(line) {
        Some(symbol) => Some((symbol, KernelConfigValue::No)),
        None => assigned_symbol(line),
    }
}

/// What the lines of a configuration text say together.
pub open spec fn lines_say(lines: Seq<Seq<char>>) -> Map<Seq<char>, KernelConfigValue>
    decreases lines.len(),
{
    if lines.len() == 0 {
        Map::empty()
    } else {
        let before = lines_say(lines.drop_last());
        match line_says(lines.last()) {
            Some((symbol, value)) => before.insert(symbol, value),
            None => before,
        }
    }
}

fn parse_line(line: &str) -> (r: Option<(String, KernelConfigValue)>)
    ensures
        match r {
            Some(p) => line_says(line@) == Some((p.0@, p.1)),
            None => line_says(line@) is None,
        },
{
    let line = text::trim(line);
    if let Some(rest) = text::strip_prefix(line.as_str(), "# CONFIG_") {
        if let Some(symbol) = text::strip_suffix(rest.as_str(), " is not set") {
            return Some((text::cat2("CONFIG_", symbol.as_str()), KernelConfigValue::No));
        }
    }
    match text::split_once(line.as_str(), '=') {
        Some((symbol, value)) => {
            if text::starts_with(symbol.as_str(), "CONFIG_") && task::is_symbol_text(
                symbol.as_str(),
            ) && value.as_str().unicode_len() == 1 {
                match KernelConfigValue::from_char(value.as_str().get_char(0)) {
                    Some(parsed) => Some((symbol, parsed)),
                    None => None,
                }
            } else {
                None
            }
        },
        None => None,
    }
}

/// Reads the text of a kernel configuration. Lines that say nothing about a symbol are passed
/// over.
pub fn parse_kernel_config_text(contents: &str) -> (r: KernelConfig)
    ensures
        r@ == lines_say(text::lines_of(contents@)),
{
    let lines = text::lines(contents);
    let ghost all = text::views(lines@);
    let mut values = KernelConfig::new();
    let mut i: usize = 0;
    while i < lines.len()
        invariant
            i <= lines.len(),
            all == text::views(lines@),
            values@ == lines_say(all.take(i as int)),
        decreases lines.len() - i,
    {
        proof {
            assert(all.take(i + 1).drop_last() =~= all.take(i as int));
            assert(all.take(i + 1).last() == lines@[i as int]@);
        }
        if let Some((symbol, value)) = parse_line(lines[i].as_str()) {
            values.insert(symbol, value);
        }
        i = i + 1;
    }
    assert(all.take(i as int) =~= all);
    values
}

/// How a configuration fails a requirement.
pub open spec fn mismatch(
    actual: Map<Seq<char>, KernelConfigValue>,
    requirement: KernelConfigRequirement,
) -> Option<Seq<char>> {
    let symbol = requirement.symbol@;
    let expected = seq![requirement.expected.char()];
    if !actual.dom().contains(symbol) {
        Some(symbol + " expected="@ + expected + " actual=<missing>"@)
    } else if actual[symbol] != requirement.expected {
        Some(symbol + " expected="@ + expected + " actual="@ + seq![actual[symbol].char()])
    } else {
        None
    }
}

/// How a configuration fails each requirement that it fails.
pub open spec fn mismatches(
    actual: Map<Seq<char>, KernelConfigValue>,
    requirements: Seq<KernelConfigRequirement>,
) -> Seq<Seq<char>>
    decreases requirements.len(),
{
    if requirements.len() == 0 {
        seq![]
    } else {
        let before = mismatches(actual, requirements.drop_last());
        match mismatch(actual, requirements.last()) {
            Some(text) => before.push(text),
            None => before,
        }
    }
}

fn char_text(c: char) -> (r: String)
    ensures
        r@ == seq![c],
{
    let mut s = String::new();
    s.push(c);
    assert(s@ =~= seq![c]);
    s
}

/// Lists the requirements that a configuration fails, in their order.
pub fn collect_kernel_config_mismatches(
    actual: &KernelConfig,
    requirements: &Vec<KernelConfigRequirement>,
) -> (r: Vec<String>)
    ensures
        text::views(r@) == mismatches(actual@, requirements@),
{
    let mut out: Vec<String> = Vec::new();
    let mut i: usize = 0;
    assert(text::views(out@) =~= seq![]);
    while i < requirements.len()
        invariant
            i <= requirements.len(),
            text::views(out@) == mismatches(actual@, requirements@.take(i as int)),
        decreases requirements.len() - i,
    {
        let requirement = &requirements[i];
        let ghost before = text::views(out@);
        proof {
            assert(requirements@.take(i + 1).drop_last() =~= requirements@.take(i as int));
            assert(requirements@.take(i + 1).last() == *requirement);
        }
        let expected = char_text(requirement.expected.as_char());
        match actual.get(requirement.symbol.as_str()) {
            None => {
                out.push(
                    text::cat4(
                        requirement.symbol.as_str(),
                        " expected=",
                        expected.as_str(),
                        " actual=<missing>",
                    ),
                );
                assert(text::views(out@) =~= before.push(out@.last()@));
            },
            Some(value) => if value != requirement.expected {
                let found = char_text(value.as_char());
                out.push(
                    text::cat5(
                        requirement.symbol.as_str(),
                        " expected=",
                        expected.as_str(),
                        " actual=",
                        found.as_str(),
                    ),
                );
                assert(text::views(out@) =~= before.push(out@.last()@));
            },
        }
        i = i + 1;
    }
    assert(requirements@.take(i as int) =~= requirements@);
    out
}

/// No mismatch is listed exactly if the configuration meets every requirement.
pub proof fn law_no_mismatch_means_met(
    actual: Map<Seq<char>, KernelConfigValue>,
    requirements: Seq<KernelConfigRequirement>,
)
    ensures
        mismatches(actual, requirements).len() == 0 <==> forall|i: int|
            0 <= i < requirements.len() ==> actual.contains_pair(
                (#[trigger] requirements[i]).symbol@,
                requirements[i].expected,
            ),
    decreases requirements.len(),
{
    if requirements.len() > 0 {
        let init = requirements.drop_last();
        law_no_mismatch_means_met(actual, init);
        if mismatches(actual, requirements).len() == 0 {
            assert forall|i: int| 0 <= i < requirements.len() implies actual.contains_pair(
                (#[trigger] requirements[i]).symbol@,
                requirements[i].expected,
            ) by {
                if i < init.len() {
                    assert(requirements[i] == init[i]);
                }
            }
        } else if forall|i: int|
            0 <= i < requirements.len() ==> actual.contains_pair(
                (#[trigger] requirements[i]).symbol@,
                requirements[i].expected,
            ) {
            assert forall|i: int| 0 <= i < init.len() implies actual.contains_pair(
                (#[trigger] init[i]).symbol@,
                init[i].expected,
            ) by {
                assert(requirements[i] == init[i]);
            }
            assert(requirements[requirements.len() - 1] == requirements.last());
        }
    }
}

/// Built in, built as a module and left out are written `y`, `m` and `n`, and each of these
/// characters is read as that value.
pub proof fn law_characters_of_the_values(c: char)
    ensures
        KernelConfigValue::of_char(c) is Some <==> c == 'y' || c == 'm' || c == 'n',
        KernelConfigValue::of_char(c) == Some(KernelConfigValue::Yes) <==> c == 'y',
        KernelConfigValue::of_char(c) == Some(KernelConfigValue::Module) <==> c == 'm',
        KernelConfigValue::of_char(c) == Some(KernelConfigValue::No) <==> c == 'n',
{
}

/// The text that gives a symbol a value, as a task requires it and as a configuration holds it.
pub open spec fn assignment(symbol: Seq<char>, c: char) -> Seq<char> {
    symbol.push('=').push(c)
}

proof fn lemma_assignment(symbol: Seq<char>, c: char)
    requires
        task::config_prefixed(symbol),
        task::symbol_chars(symbol),
        c == 'y' || c == 'm' || c == 'n',
    ensures
        text::trimmed(assignment(symbol, c)) == assignment(symbol, c),
        text::split_once_at(assignment(symbol, c), '=') == Some((symbol, seq![c])),
        assignment(symbol, c).len() > 0,
        assignment(symbol, c)[0] == 'C',
{
    reveal_strlit("CONFIG_");
    let entry = assignment(symbol, c);
    assert(symbol[0] == "CONFIG_"@[0]) by {
        assert("CONFIG_"@ =~= symbol.subrange(0, "CONFIG_"@.len() as int));
    }
    assert(text::trim_start(entry) == entry);
    assert(text::trim_end(entry) == entry);
    assert forall|j: int| 0 <= j < symbol.len() implies entry[j] != '=' by {
        assert(task::symbol_char(symbol[j]));
    }
    text::lemma_first_index_is(entry, '=', symbol.len() as int);
    assert(entry.take(symbol.len() as int) =~= symbol);
    assert(entry.skip((symbol.len() + 1) as int) =~= seq![c]);
}

/// An entry requires of its symbol the value that its character stands for, and a line of a
/// configuration that is the entry itself gives the symbol that value: a task that asks for what
/// a kernel has is not refused, whichever of the three values it asks for.
pub proof fn law_entry_is_met_by_its_own_line(symbol: Seq<char>, value: KernelConfigValue)
    requires
        task::config_prefixed(symbol),
        task::symbol_chars(symbol),
    ensures
        requirement_of(assignment(symbol, value.char())) == Ok::<
            (Seq<char>, KernelConfigValue),
            Seq<char>,
        >((symbol, value)),
        line_says(assignment(symbol, value.char())) == Some((symbol, value)),
        line_says(symbol.push('=').push('y')) == Some((symbol, KernelConfigValue::Yes)),
        line_says(symbol.push('=').push('m')) == Some((symbol, KernelConfigValue::Module)),
        line_says(symbol.push('=').push('n')) == Some((symbol, KernelConfigValue::No)),
{
    lemma_line_says(symbol, 'y');
    lemma_line_says(symbol, 'm');
    lemma_line_says(symbol, 'n');
    let c = value.char();
    lemma_assignment(symbol, c);
    reveal_strlit("y");
    reveal_strlit("m");
    reveal_strlit("n");
    assert("y"@ =~= seq!['y']);
    assert("m"@ =~= seq!['m']);
    assert("n"@ =~= seq!['n']);
    assert(seq!['y'][0] == 'y' && seq!['m'][0] == 'm' && seq!['n'][0] == 'n');
}

proof fn lemma_line_says(symbol: Seq<char>, c: char)
    requires
        task::config_prefixed(symbol),
        task::symbol_chars(symbol),
        c == 'y' || c == 'm' || c == 'n',
    ensures
        line_says(assignment(symbol, c)) == Some((symbol, KernelConfigValue::of_char(c)->0)),
{
    let entry = assignment(symbol, c);
    lemma_assignment(symbol, c);
    reveal_strlit("# CONFIG_");
    if "# CONFIG_"@.is_prefix_of(entry) {
        assert("# CONFIG_"@[0] == entry.subrange(0, "# CONFIG_"@.len() as int)[0]);
    }
    assert(seq![c][0] == c);
}

/// A line that says that a symbol is not set gives it the value that stands for being left out.
pub proof fn law_symbol_that_is_not_set(name: Seq<char>)
    ensures
        line_says("# CONFIG_"@ + name + " is not set"@) == Some(
            ("CONFIG_"@ + name, KernelConfigValue::No),
        ),
{
    reveal_strlit("# CONFIG_");
    reveal_strlit(" is not set");
    let line = "# CONFIG_"@ + name + " is not set"@;
    assert(line[0] == '#' && line.last() == 't');
    assert(text::trim_start(line) == line);
    assert(text::trim_end(line) == line);
    assert("# CONFIG_"@ =~= line.subrange(0, "# CONFIG_"@.len() as int));
    let rest = line.skip("# CONFIG_"@.len() as int);
    assert(rest =~= name + " is not set"@);
    assert(" is not set"@ =~= rest.subrange(
        rest.len() - " is not set"@.len(),
        rest.len() as int,
    ));
    assert(rest.take(rest.len() - " is not set"@.len()) =~= name);
}

/// Of several lines about a symbol the last counts, and lines about other symbols change nothing
/// of it.
pub proof fn law_last_line_counts(lines: Seq<Seq<char>>, line: Seq<char>)
    ensures
        match line_says(line) {
            Some((symbol, value)) => {
                &&& lines_say(lines.push(line)).contains_pair(symbol, value)
                &&& forall|other: Seq<char>| other != symbol ==> (#[trigger] lines_say(
                    lines.push(line),
                ).contains_key(other) <==> lines_say(lines).contains_key(other))
                &&& forall|other: Seq<char>|
                    other != symbol && lines_say(lines).contains_key(other)
                        ==> #[trigger] lines_say(lines.push(line))[other] == lines_say(lines)[other]
            },
            None => lines_say(lines.push(line)) == lines_say(lines),
        },
{
    assert(lines.push(line).drop_last() =~= lines);
}

/// A configuration meets a requirement exactly if it gives the symbol the required value. Where it
/// does not, the message says what was expected and what was found.
pub proof fn law_mismatch_is_explained(
    actual: Map<Seq<char>, KernelConfigValue>,
    requirement: KernelConfigRequirement,
)
    ensures
        mismatch(actual, requirement) is None <==> actual.dom().contains(requirement.symbol@)
            && actual[requirement.symbol@] == requirement.expected,
        mismatch(actual, requirement) matches Some(message) ==> {
            &&& (requirement.symbol@ + " expected="@ + seq![requirement.expected.char()]
                + " actual="@).is_prefix_of(message)
            &&& !actual.dom().contains(requirement.symbol@) ==> ("=<missing>"@).is_suffix_of(message)
            &&& actual.dom().contains(requirement.symbol@) ==> message.last()
                == actual[requirement.symbol@].char()
        },
{
    if let Some(message) = mismatch(actual, requirement) {
        reveal_strlit(" actual=<missing>");
        reveal_strlit(" actual=");
        reveal_strlit("=<missing>");
        let head = requirement.symbol@ + " expected="@ + seq![requirement.expected.char()]
            + " actual="@;
        assert(head =~= message.subrange(0, head.len() as int));
        if !actual.dom().contains(requirement.symbol@) {
            let n = message.len() as int;
            assert("=<missing>"@ =~= message.subrange(n - 10, n));
        }
    }
}

/// The message for an entry that is refused shows the entry, and which part of it is wrong.
pub proof fn law_refused_entry_is_shown(value: Seq<char>)
    ensures
        requirement_of(value) matches Err(message) ==> {
            let entry = text::trimmed(value);
            &&& text::occurs_in("'"@ + entry + "'"@, message)
            &&& !entry.contains('=') ==> ("Invalid vm.required_kernel_config entry "@).is_prefix_of(
                message,
            ) && ("expected CONFIG_FOO=y|m|n"@).is_suffix_of(message)
            &&& entry.contains('=') ==> ({
                let symbol = (text::split_once_at(entry, '=')->0).0;
                let wanted = (text::split_once_at(entry, '=')->0).1;
                if task::config_prefixed(symbol) && task::symbol_chars(symbol) {
                    &&& ("Invalid vm.required_kernel_config value '"@ + wanted + "'"@).is_prefix_of(
                        message,
                    )
                    &&& ("(expected y|m|n)"@).is_suffix_of(message)
                } else {
                    &&& ("Invalid vm.required_kernel_config symbol '"@ + symbol + "'"@).is_prefix_of(
                        message,
                    )
                    &&& ("(expected CONFIG_FOO)"@).is_suffix_of(message)
                }
            })
        },
{
    if let Err(message) = requirement_of(value) {
        let entry = text::trimmed(value);
        text::lemma_first_index(entry, '=');
        reveal_strlit("'");
        reveal_strlit("Invalid vm.required_kernel_config entry '");
        reveal_strlit("Invalid vm.required_kernel_config entry ");
        reveal_strlit("': expected CONFIG_FOO=y|m|n");
        reveal_strlit("expected CONFIG_FOO=y|m|n");
        reveal_strlit("Invalid vm.required_kernel_config symbol '");
        reveal_strlit("Invalid vm.required_kernel_config value '");
        reveal_strlit("' in '");
        reveal_strlit("' (expected CONFIG_FOO)");
        reveal_strlit("(expected CONFIG_FOO)");
        reveal_strlit("' (expected y|m|n)");
        reveal_strlit("(expected y|m|n)");
        let shown = "'"@ + entry + "'"@;
        let n = message.len() as int;
        if !entry.contains('=') {
            let head = "Invalid vm.required_kernel_config entry "@;
            assert(head =~= message.subrange(0, head.len() as int));
            assert("expected CONFIG_FOO=y|m|n"@ =~= message.subrange(n - 25, n));
            let at = head.len() as int;
            assert(message.subrange(at, at + shown.len()) =~= shown);
            assert(text::occurs_at(shown, message, at));
        } else {
            let symbol = (text::split_once_at(entry, '=')->0).0;
            let wanted = (text::split_once_at(entry, '=')->0).1;
            let (head, tail) = if task::config_prefixed(symbol) && task::symbol_chars(symbol) {
                (
                    "Invalid vm.required_kernel_config value '"@ + wanted + "'"@,
                    "(expected y|m|n)"@,
                )
            } else {
                (
                    "Invalid vm.required_kernel_config symbol '"@ + symbol + "'"@,
                    "(expected CONFIG_FOO)"@,
                )
            };
            assert(head =~= message.subrange(0, head.len() as int));
            assert(tail =~= message.subrange(n - tail.len(), n));
            let at = head.len() + 4 as int;
            assert(message.subrange(at, at + shown.len()) =~= shown);
            assert(text::occurs_at(shown, message, at));
        }
    }
}

} // verus!
