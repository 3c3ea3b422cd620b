use vstd::prelude::*;

verus! {

/// Where the bootstrap script is copied on the controller.
pub const RBOT_SETUP_SCRIPT: &'static str = "/home/lvuser/rbot-rio-setup.sh";

/// Where the artifact is copied on the controller before it is installed.
pub const EXEC_TMP: &'static str = "/home/lvuser/rbot-exec-tmp";

pub open spec fn header() -> Seq<char> {
    "#!/bin/bash\n"@
}

/// Stops the running control program, within two seconds, quietly.
pub open spec fn stop_step() -> Seq<char> {
    ". /etc/profile.d/natinst-path.sh; /usr/local/frc/bin/frcKillRobot.sh -t 2 > /dev/null\n"@
}

/// Moves the copied artifact to its install location, over any earlier binary.
pub open spec fn install_step(name: Seq<char>) -> Seq<char> {
    "mv /home/lvuser/rbot-exec-tmp /home/lvuser/"@ + name + "\n"@
}

/// Rewrites the launch pointer (truncating it) to name the new binary.
pub open spec fn pointer_step(name: Seq<char>) -> Seq<char> {
    "rm -f /home/lvuser/robotCommand\ntouch /home/lvuser/robotCommand\necho \"/home/lvuser/"@
        + name + "\" > /home/lvuser/robotCommand\n"@
}

/// Makes the new binary executable and hands it to the program's user.
pub open spec fn permission_step(name: Seq<char>) -> Seq<char> {
    "chmod +x /home/lvuser/"@ + name + "\nchown lvuser /home/lvuser/"@ + name + "\n"@
}

/// Flushes file system buffers and refreshes the dynamic linker cache.
pub open spec fn refresh_step() -> Seq<char> {
    "sync\nldconfig\n"@
}

/// Restarts the control-program supervisor.
pub open spec fn restart_step() -> Seq<char> {
    ". /etc/profile.d/natinst-path.sh; /usr/local/frc/bin/frcKillRobot.sh -t -r 2 > /dev/null\n"@
}

/// The bootstrap script that installs the binary named `name` and restarts it.
pub open spec fn script_text(name: Seq<char>) -> Seq<char> {
    header() + stop_step() + install_step(name) + pointer_step(name) + permission_step(name)
        + refresh_step() + restart_step()
}

/// `s` holds `part` starting at index `i`.
pub open spec fn occurs_at(s: Seq<char>, part: Seq<char>, i: int) -> bool {
    0 <= i && i + part.len() <= s.len() && s.subrange(i, i + part.len()) == part
}

/// Script generation depends on the remote name alone: equal names give
/// identical scripts.
pub proof fn lemma_script_deterministic(a: Seq<char>, b: Seq<char>)
    requires
        a == b,
    ensures
        script_text(a) == script_text(b),
{
}

/// In the script the stop step comes before the install step, which comes
/// before the rewrite of the launch pointer, which comes before the restart.
pub proof fn lemma_script_step_order(name: Seq<char>)
    ensures
        exists|i: int, j: int, k: int, l: int|
            i < j < k < l && occurs_at(script_text(name), stop_step(), i) && occurs_at(
                script_text(name),
                install_step(name),
                j,
            ) && occurs_at(script_text(name), pointer_step(name), k) && occurs_at(
                script_text(name),
                restart_step(),
                l,
            ),
{
    let s = script_text(name);
    let i = header().len() as int;
    let j = i + stop_step().len();
    let k = j + install_step(name).len();
    let m = k + pointer_step(name).len();
    let n = m + permission_step(name).len();
    let l = n + refresh_step().len();
    reveal_strlit("#!/bin/bash\n");
    reveal_strlit(". /etc/profile.d/natinst-path.sh; /usr/local/frc/bin/frcKillRobot.sh -t 2 > /dev/null\n");
    reveal_strlit("mv /home/lvuser/rbot-exec-tmp /home/lvuser/");
    reveal_strlit("rm -f /home/lvuser/robotCommand\ntouch /home/lvuser/robotCommand\necho \"/home/lvuser/");
    assert(s.subrange(i, j) =~= stop_step());
    assert(s.subrange(j, k) =~= install_step(name));
    assert(s.subrange(k, m) =~= pointer_step(name));
    assert(s.subrange(l, s.len() as int) =~= restart_step());
    assert(occurs_at(s, stop_step(), i));
    assert(occurs_at(s, install_step(name), j));
    assert(occurs_at(s, pointer_step(name), k));
    assert(occurs_at(s, restart_step(), l));
}

/// `part` occurs in `s` at index `i`, and nowhere before it.
pub open spec fn first_at(s: Seq<char>, part: Seq<char>, i: int) -> bool {
    occurs_at(s, part, i) && forall|q: int| 0 <= q < i ==> !occurs_at(s, part, q)
}

pub open spec fn no_newline(name: Seq<char>) -> bool {
    forall|t: int| 0 <= t < name.len() ==> name[t] != '\n'
}

pub open spec fn install_head() -> Seq<char> {
    "mv /home/lvuser/rbot-exec-tmp /home/lvuser/"@
}

pub open spec fn pointer_head() -> Seq<char> {
    "rm -f /home/lvuser/robotCommand\ntouch /home/lvuser/robotCommand\necho \"/home/lvuser/"@
}

proof fn lemma_header_chars()
    ensures
        forall|q: int| 0 <= q < header().len() ==> header()[q] != '.' && header()[q] != 'm',
        header().len() > 0,
{
    reveal_strlit("#!/bin/bash\n");
}

proof fn lemma_stop_chars()
    ensures
        forall|q: int| 0 <= q < stop_step().len() ==> #[trigger] stop_step()[q] != 'm',
        stop_step().len() > 0,
        stop_step()[0] == '.',
        stop_step()[stop_step().len() - 1] == '\n',
{
    reveal_strlit(". /etc/profile.d/natinst-path.sh; /usr/local/frc/bin/frcKillRobot.sh -t 2 > /dev/null\n");
}

proof fn lemma_install_head_chars()
    ensures
        install_head().len() > 1,
        install_head()[0] == 'm',
        install_head()[install_head().len() - 1] != 'r',
        forall|t: int|
            0 <= t < install_head().len() - 1 && #[trigger] install_head()[t] == 'r' ==> install_head()[t
                + 1] != 'm',
{
    reveal_strlit("mv /home/lvuser/rbot-exec-tmp /home/lvuser/");
}

proof fn lemma_pointer_head_chars()
    ensures
        pointer_head().len() > 32,
        pointer_head()[0] == 'r',
        pointer_head()[1] == 'm',
        pointer_head()[31] == '\n',
        pointer_head()[32] == 't',
        forall|t: int| 0 <= t < 31 ==> #[trigger] pointer_head()[t] != '\n',
{
    reveal_strlit("rm -f /home/lvuser/robotCommand\ntouch /home/lvuser/robotCommand\necho \"/home/lvuser/");
}

/// The facts about the characters of the script that decide where each of
/// the three steps first occurs.
pub open spec fn layout_facts(
    s: Seq<char>,
    install: Seq<char>,
    pointer: Seq<char>,
    i: int,
    j: int,
    e: int,
    k: int,
) -> bool {
    &&& 0 < i < j < e < k
    &&& forall|q: int| 0 <= q < i ==> #[trigger] s[q] != '.'
    &&& forall|q: int| 0 <= q < j ==> #[trigger] s[q] != 'm'
    &&& s[j - 1] != 'r'
    &&& forall|q: int| j <= q < e - 1 && #[trigger] s[q] == 'r' ==> s[q + 1] != 'm'
    &&& s[e - 1] != 'r'
    &&& forall|q: int| e <= q < k - 1 ==> #[trigger] s[q] != '\n'
    &&& s[k - 1] == '\n'
    &&& s[k] == 'r'
    &&& install.len() > 0
    &&& install[0] == 'm'
    &&& pointer.len() > 32
    &&& pointer[0] == 'r'
    &&& pointer[1] == 'm'
    &&& pointer[31] == '\n'
    &&& pointer[32] == 't'
    &&& forall|t: int| 0 <= t < 31 ==> #[trigger] pointer[t] != '\n'
}

proof fn lemma_first_from_layout(
    s: Seq<char>,
    stop: Seq<char>,
    install: Seq<char>,
    pointer: Seq<char>,
    i: int,
    j: int,
    e: int,
    k: int,
)
    requires
        layout_facts(s, install, pointer, i, j, e, k),
        stop.len() > 0,
        stop[0] == '.',
        occurs_at(s, stop, i),
        occurs_at(s, install, j),
        occurs_at(s, pointer, k),
    ensures
        first_at(s, stop, i),
        first_at(s, install, j),
        first_at(s, pointer, k),
{
    assert forall|q: int| 0 <= q < i implies !occurs_at(s, stop, q) by {
        if occurs_at(s, stop, q) {
            assert(s.subrange(q, q + stop.len())[0] == s[q]);
        }
    }
    assert forall|q: int| 0 <= q < j implies !occurs_at(s, install, q) by {
        if occurs_at(s, install, q) {
            assert(s.subrange(q, q + install.len())[0] == s[q]);
        }
    }
    assert forall|q: int| 0 <= q < k implies !occurs_at(s, pointer, q) by {
        if occurs_at(s, pointer, q) {
            let w = s.subrange(q, q + pointer.len());
            assert(w[0] == s[q]);
            assert(w[1] == s[q + 1]);
            if q < j - 1 {
                assert(s[q + 1] != 'm');
            } else if q < e - 1 {
            } else if q < e {
            } else if q + 31 < k - 1 {
                assert(w[31] == s[q + 31]);
            } else if q + 31 == k - 1 {
                assert(w[32] == s[k]);
            } else {
                assert(w[k - 1 - q] == s[k - 1]);
            }
        }
    }
}

/// The characters of the script around the install step.
proof fn lemma_script_layout(name: Seq<char>)
    requires
        no_newline(name),
    ensures
        layout_facts(
            script_text(name),
            install_step(name),
            pointer_step(name),
            header().len() as int,
            (header().len() + stop_step().len()) as int,
            (header().len() + stop_step().len() + install_head().len()) as int,
            (header().len() + stop_step().len() + install_step(name).len()) as int,
        ),
{
    lemma_header_chars();
    lemma_stop_chars();
    lemma_install_head_chars();
    lemma_pointer_head_chars();
    reveal_strlit("\n");
    let h = header();
    let st = stop_step();
    let m = install_head();
    let l = pointer_head();
    let x = h + st;
    let inst = install_step(name);
    let y = inst + pointer_step(name) + permission_step(name) + refresh_step() + restart_step();
    let s = script_text(name);
    assert(s =~= x + y);
    assert(inst =~= m + name + "\n"@);
    let i = h.len() as int;
    let j = x.len() as int;
    let e = j + m.len();
    let k = j + inst.len();
    assert forall|q: int| 0 <= q < j implies s[q] == x[q] by {}
    assert forall|q: int| 0 <= q < j implies #[trigger] s[q] != 'm' by {
        assert(s[q] == x[q]);
        if q < i {
            assert(x[q] == h[q]);
        } else {
            assert(x[q] == st[q - i]);
        }
    }
    assert forall|q: int| 0 <= q < i implies #[trigger] s[q] != '.' by {
        assert(s[q] == x[q]);
        assert(x[q] == h[q]);
    }
    assert(s[j - 1] == x[j - 1]);
    assert(x[j - 1] == st[st.len() - 1]);
    assert forall|q: int| j <= q < k implies s[q] == inst[q - j] by {
        assert(s[q] == y[q - j]);
    }
    assert forall|q: int| j <= q < e implies s[q] == m[q - j] by {
        assert(s[q] == inst[q - j]);
    }
    assert forall|q: int| j <= q < e - 1 && #[trigger] s[q] == 'r' implies s[q + 1] != 'm' by {
        assert(s[q] == m[q - j]);
        assert(s[q + 1] == m[q - j + 1]);
        assert(m[q - j] == 'r');
    }
    assert(s[e - 1] == m[m.len() - 1]);
    assert forall|q: int| e <= q < k - 1 implies #[trigger] s[q] != '\n' by {
        assert(s[q] == inst[q - j]);
        assert(inst[q - j] == name[q - e]);
    }
    assert(s[k - 1] == inst[inst.len() - 1]);
    assert(s[k] == y[inst.len() as int]);
    assert(pointer_step(name) =~= l + name + "\" > /home/lvuser/robotCommand\n"@);
    assert(y[inst.len() as int] == pointer_step(name)[0]);
    assert(pointer_step(name)[0] == l[0]);
    assert(pointer_step(name)[1] == l[1]);
    assert(pointer_step(name)[31] == l[31]);
    assert(pointer_step(name)[32] == l[32]);
    assert forall|t: int| 0 <= t < 31 implies #[trigger] pointer_step(name)[t] != '\n' by {
        assert(pointer_step(name)[t] == l[t]);
    }
    assert(inst[0] == m[0]);
}

/// For a name without a line break, the first occurrence of the stop step
/// comes before the first occurrence of the install step, which comes before
/// the first occurrence of the launch-pointer rewrite.
pub proof fn lemma_script_first_occurrences(name: Seq<char>)
    requires
        no_newline(name),
    ensures
        exists|i: int, j: int, k: int|
            i < j < k && first_at(script_text(name), stop_step(), i) && first_at(
                script_text(name),
                install_step(name),
                j,
            ) && first_at(script_text(name), pointer_step(name), k),
{
    let s = script_text(name);
    let i = header().len() as int;
    let j = (header().len() + stop_step().len()) as int;
    let e = j + install_head().len();
    let k = j + install_step(name).len();
    lemma_stop_chars();
    lemma_script_layout(name);
    assert(s.subrange(i, j) =~= stop_step());
    assert(s.subrange(j, k) =~= install_step(name));
    assert(s.subrange(k, k + pointer_step(name).len()) =~= pointer_step(name));
    lemma_first_from_layout(s, stop_step(), install_step(name), pointer_step(name), i, j, e, k);
}

/// The bootstrap script for the artifact whose remote base name is `exec_name`:
/// stop the running program, install the new binary, point the launcher at it,
/// fix its permissions, refresh the linker cache and restart.
pub fn setup_script(exec_name: &str) -> (r: String)
    ensures
        r@ == script_text(exec_name@),
{
    let mut s = String::from_str("#!/bin/bash\n");
    s.append(". /etc/profile.d/natinst-path.sh; /usr/local/frc/bin/frcKillRobot.sh -t 2 > /dev/null\n");
    s.append("mv /home/lvuser/rbot-exec-tmp /home/lvuser/");
    s.append(exec_name);
    s.append("\n");
    s.append("rm -f /home/lvuser/robotCommand\ntouch /home/lvuser/robotCommand\necho \"/home/lvuser/");
    s.append(exec_name);
    s.append("\" > /home/lvuser/robotCommand\n");
    s.append("chmod +x /home/lvuser/");
    s.append(exec_name);
    s.append("\nchown lvuser /home/lvuser/");
    s.append(exec_name);
    s.append("\n");
    s.append("sync\nldconfig\n");
    s.append(". /etc/profile.d/natinst-path.sh; /usr/local/frc/bin/frcKillRobot.sh -t -r 2 > /dev/null\n");
    assert(s@ =~= script_text(exec_name@));
    s
}

/// The remote command that runs the copied bootstrap script.
pub fn setup_command() -> (r: String)
    ensures
        r@ == "sh "@ + RBOT_SETUP_SCRIPT@,
{
    let mut s = String::from_str("sh ");
    s.append(RBOT_SETUP_SCRIPT);
    s
}

} // verus!
