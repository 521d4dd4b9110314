//! The table of opcode names and the lookup of an opcode's name.

use vstd::prelude::*;

verus! {

/// The opcodes that the parser knows, each with its name, in the order in
/// which they are entered into the table: by opcode, character by character.
pub open spec fn opcode_table() -> Seq<(&'static str, &'static str)> {
    seq![
        ("0", "ADD_PLAYERS"),
        ("00", "UPDATE_NAMES"),
        ("10", "GET_ASSIST"),
        ("2", "REMOVE_PLAYER"),
        ("4", "DO_DAMAGE"),
        ("5", "GET_SCORE"),
        ("6", "GET_KILL"),
        ("7", "UPDATE_LEADERS"),
        ("9", "SHOW_TRACER"),
        ("_0", "RPC_SUCCESS"),
        ("_1", "RPC_ERROR"),
        ("a", "ACCOUNT_RESPONSE"),
        ("aai", "C_SPAWN"),
        ("abd", "ALL_BUNDLE_DATA"),
        ("ac", "ACTION_FEED"),
        ("ad", "SYNC_AIRDROP"),
        ("ai", "SYNC_ALL_AI"),
        ("am", "ADD_MEDAL"),
        ("ana", "SERV_ANIM"),
        ("ann", "ANNOUNCEMENT"),
        ("asnd", "ADD_PLAYER_SOUND"),
        ("atrd", "TRADE_A_RESPONSE"),
        ("bbm", "BOMBARDMENT_UPDATE"),
        ("bcfg", "BOTS_POPUP"),
        ("bdgr", "BADGE_UPDATE"),
        ("bh", "UPDATE_HEAD_SIZE"),
        ("bmb", "SHOW_BOMBARDMENT"),
        ("bnk", "UPDATE_BANK"),
        ("bo", "BUILD_OBJECT"),
        ("bpclmr", "CLAIM_ITEM_RESPONSE"),
        ("bpdl", "DATA_LOADED"),
        ("bppd", "SYNC_BP_PROG"),
        ("busy", "SET_BUSY"),
        ("c", "PLAYER_ANIM"),
        ("camb", "CHANGE_AMBIENT"),
        ("cbdgr", "BADGE_CLAIM_RESPONSE"),
        ("cct", "CAPTURE_CONTROL"),
        ("cd", "SYNC_P_CON_DATA"),
        ("cda", "SYNC_P_CON_OBJ"),
        ("ch", "ADD_CHAT"),
        ("chg", "UPDATE_CHALLENGES"),
        ("chgC", "CHALLENGE_COMPLETED"),
        ("chgp", "CHANGE_POSITION"),
        ("chi", "ADD_CHATI18N"),
        ("chlR", "UPDATE_CHALLENGE_REWARDS"),
        ("chp", "CHECK_POINT_SET"),
        ("chrg", "SET_PLAYER_CHARGED"),
        ("cln", "CLAN_RESPONSE"),
        ("clnL", "CLAN_LEAVE_RESPONSE"),
        ("clog", "CONSOLE_LOG"),
        ("cnfm", "CONFIRM_INTERACTION"),
        ("cntry", "UPDATE_COUNTRY"),
        ("code", "ENTER_CODE"),
        ("codeP", "CODE_PASSED"),
        ("codeT", "UPDATE_CODE_TIMER"),
        ("cpt", "cpt"),
        ("cptR", "cptR"),
        ("crftr", "CRAFT_RESPONSE"),
        ("crsp", "CREATE_SPAWNABLE"),
        ("cust", "CUSTOM_RESPONSE"),
        ("cv", "CUSTOM_VAL"),
        ("dbgp", "ADD_DEBUG_POING"),
        ("dc", "DISCONNECT"),
        ("dch", "DEBUG_COMPLEX_HITBOX"),
        ("debug", "SET_DEBUG"),
        ("debug_rc", "DEBUG_RAYCAST"),
        ("do", "DESTROY_GAMEOBJECT"),
        ("dsp", "DISPOSE_SPAWNABLE"),
        ("dsrvl", "DEDI_BUY_RESPONSE"),
        ("edMp", "EDIT_MAP"),
        ("end", "END_GAME"),
        ("error", "ERROR"),
        ("ex", "EXPLOSION"),
        ("exf", "SET_EXPERIMENTAL"),
        ("f", "SYNC_FAILED"),
        ("fe", "FAILED_TO_ENDER"),
        ("fh", "SET_HIDDEN"),
        ("flgr", "COUNTRY_FLAG_UPDATE"),
        ("fp", "FORCE_PING"),
        ("frs", "ENTER_GAME"),
        ("frz", "SET_FROZEN"),
        ("gameAnnouncement", "GAME_ACCOUNCEMENT"),
        ("gbdr", "AVAILABLE_BUNDLE_DATA"),
        ("gfrnd", "FRIENDS_LIST_RESPONSE"),
        ("gmc", "UPDATE_MAIL"),
        ("gmsg", "UPDATE_GAME_MESSAGE"),
        ("gsc", "GAME_STATE_CHANGED"),
        ("gt", "LOG_TIME"),
        ("gte", "UPDATE_GATE"),
        ("gv", "UPDATE_GLOBAL_VALUE"),
        ("h", "CHANGE_HEALTH"),
        ("hbdb", "ADD_HITBOX_HELPER"),
        ("hdsr", "HIDE_STATUS"),
        ("hlpr", "ADD_HELPER_C"),
        ("inat", "PLAYER_INTERACTIONS"),
        ("inatA", "ALL_PLAYER_INTERACTIONS"),
        ("init", "INIT_GAME"),
        ("inst-id", "GAME_INSTANCE_ID"),
        ("io-init", "IO_INIT"),
        ("is", "TRIGGER_IMG_SOUND"),
        ("jg", "SET_JUGGERNAUT"),
        ("jnk", "FOUND_JUNK"),
        ("k", "UPDATE_PLAYERS"),
        ("kml", "ADD_MAIL"),
        ("kpd", "KPD_RESPONSE"),
        ("kpdf", "KPD_RESET"),
        ("krm", "UPDATE_KRUM_MACHINE"),
        ("krp", "KR_PACKAGE"),
        ("krt", "UPDATE_KR_TAGS"),
        ("ksL", "SCRIPT_LOG"),
        ("kst", "KILL_STREAK_M"),
        ("l", "SYNC_PLAYER"),
        ("lkt", "UPDATE_LOCKOUT_TIM"),
        ("lm", "LOCK_MOVE"),
        ("lmsg", "LOADING_POPUP"),
        ("lo", "SYNC_NEW_OBJECTS"),
        ("load", "INIT_LOAD"),
        ("loadS", "UPDATE_SETTINGS"),
        ("lock", "LOCK_PLAYER"),
        ("lv", "UPDATE_LIVES"),
        ("mf", "TELEPORT_FROM_NODE"),
        ("mo", "TELEPORT_TO_NODE"),
        ("mp", "INTER_M_PROG"),
        ("mpos", "MARK_POSITION"),
        ("mv", "UPD_MATCH_VOTE"),
        ("mybx", "UPDATE_MYSTERY_BOX"),
        ("n", "NUKE_UPDATE"),
        ("nbdgr", "BADGE_CLAIM_MULTI_RES"),
        ("nftR", "NFT_RESPONSE"),
        ("nmeR", "ALIAS_RESPONSE"),
        ("noc", "SET_NOCLIP"),
        ("nwT", "NEW_TOKEN"),
        ("obj", "SET_OBJECTIVE"),
        ("p", "INTER_PROG"),
        ("pErr", "PURCHASE_ERROR"),
        ("pRes", "SHOW_POPUP"),
        ("pdR", "PROMOS_RESPONSE"),
        ("pi", "SOCKET_PING"),
        ("pir", "SOCKET_PING_RESULT"),
        ("pk", "EFFECT"),
        ("ppr", "PURCHASE_PRODUCT_RESPONSE"),
        ("pr", "SHOW_PROJECTILE"),
        ("prc", "PLAYER_RECONNECTED"),
        ("pre", "END_PROJECTILE"),
        ("prmR", "PREMIUM_RESPONSE"),
        ("prpR", "UPDATE_PROP_ROT"),
        ("prr", "POPUP_REGISTER_REWARDS"),
        ("pur", "PURCHASE_RESPONSE"),
        ("purb", "PURCHASE_BUNDLE_RESPONSE"),
        ("purbp", "PURCHASE_RESPONSE_2"),
        ("purbpl", "PURCHASE_LEVEL_RESPONSE"),
        ("purprm", "PURCHASE_PREMIUM_RESPONSE"),
        ("pwup", "UPDATE_POWER_UP"),
        ("rad", "REMOVE_AIRDROP_BY_SID"),
        ("rai", "REMOVE_BY_SID"),
        ("rds", "UPDATE_ROUNDS_DIS"),
        ("ready", "READY"),
        ("recps", "CRAFT_DATA_RESPONSE"),
        ("rfl", "REFILL_KNIFE"),
        ("rg", "REGEN_PLAYER"),
        ("rml", "OPEN_MAIL"),
        ("rmm", "METAMASK_UNLINK_RESPONSE"),
        ("ro", "RESPAWN_OBJ"),
        ("rrqdxp", "RECIEVE_DOUBLE_XP"),
        ("rsnd", "REMOVE_PLAYER_SOUND"),
        ("s", "PLAYER_SOUND"),
        ("sb", "SHOW_SPEECH_BUBBLE"),
        ("scr", "JUMP_SCARE"),
        ("sd", "CUSTOM_NETWORK_MESSAGE"),
        ("shk", "SHAKE"),
        ("sic", "SET_SHARING_IS_CARING"),
        ("skin", "SKIN_REWARD"),
        ("skinF", "SKIN_FOUND_MESSAGE"),
        ("slo", "SYNC_LIVE_OBJECTS"),
        ("smybx", "SWITCH_MYSTERY_BOX"),
        ("so", "PLAY_SOUND"),
        ("sp", "ADD_SPRAY"),
        ("spb", "SET_SPEED_BOOST"),
        ("spin", "SPIN_RESPONSE"),
        ("spinH", "SAVE_SPIN_HISTORY"),
        ("spinKR", "SPIN_KR"),
        ("spinW", "SPIN_WHEEL_RESPONSE"),
        ("spk", "SET_PLAYER_KEY"),
        ("sso", "STOP_SOUND"),
        ("st", "KILL_STREAK"),
        ("start", "START_GAME"),
        ("svybRes", "SURVEY_BUNDLE_RESPONSE"),
        ("t", "UPDATE_TIMER"),
        ("tch", "ADD_TRADE_CHAT"),
        ("tgui", "TOGGLE_ELEMENT"),
        ("tm", "UPDATE_TEAM"),
        ("trd", "TRADE_RESPONSE"),
        ("ts", "TEAM_SCORE"),
        ("twitchDropsResponse", "TWITCH_DROPS_RESPONSE"),
        ("twitchRemoveResponse", "TWITCH_REMOVE_RESPONSE"),
        ("twitchVerifyResponse", "TWITCH_VERIFY_RESPONSE"),
        ("tx", "TEXT_POPUP"),
        ("ua", "UPDATE_ACCOUNT"),
        ("uai", "UPDATE_ASSET_ID"),
        ("uamo", "UPDATE_AMMO"),
        ("uchp", "UPDATE_CHALLENGES_PROGRESS"),
        ("uct", "UPDATE_DOM_ZONE"),
        ("uf", "UPDATE_FUNDS"),
        ("ufi", "UPDATE_FLAG_INFO"),
        ("ufl", "UPDATE_FLAG"),
        ("ufp", "UPDATE_FLAG_PING"),
        ("uh", "UPDATE_HOST"),
        ("uid", "CON_UID"),
        ("ulb", "UPDATE_LEADER_BOARD"),
        ("ulm", "UNLOCK_MOVE"),
        ("unb", "UNBOX_MESSAGE"),
        ("unbS", "UNBOX_MESSSAGE_S"),
        ("unl", "SET_UNLIMITED"),
        ("uobj", "UPDATE_OBJECTIVE"),
        ("up", "UPDATE_PROP"),
        ("upPR", "UPLOAD_PROFILE_RESPONSE"),
        ("upR", "UPLOAD_RESPONSE"),
        ("upk", "UPDATE_ZOMBIE_PERKS"),
        ("upp", "NEW_PASS_RESPONSE"),
        ("uprm", "UPDATE_PREMIUM_AMOUNT"),
        ("upz", "UPDATE_ZOMBIE_ROUND"),
        ("utrd", "UPDATE_TRADE_RESPONSE"),
        ("vad", "FORCE_VIDEO_AD"),
        ("vc", "VOICE_CHAT"),
        ("vf", "VOTE_FORFEIT"),
        ("vk", "VOTE_KICK"),
        ("vm", "VOTE_MAP"),
        ("vmm", "OPEN_METAMASK_AUTH"),
        ("vmms", "METAMASK_LINK_RESPONSE"),
        ("vr", "REDEEM_VOUCHER_RESPONSE"),
        ("wep", "SET_WEAPON"),
        ("wstk", "UPDATE_WEAPON_STREAK"),
        ("xst", "LOAD_XSOLLA"),
        ("zn", "UPDATE_ZONE")
    ]
}

/// The map from opcode to name that a sequence of entries makes, a later
/// entry taking the place of an earlier one with the same opcode.
pub open spec fn entries_map(entries: Seq<(&'static str, &'static str)>) -> Map<Seq<char>, Seq<char>>
    decreases entries.len(),
{
    if entries.len() == 0 {
        Map::empty()
    } else {
        let last = entries.last();
        entries_map(entries.drop_last()).insert(last.0@, last.1@)
    }
}

/// The name that the last entry of `entries` with opcode `code` gives.
pub open spec fn table_lookup(entries: Seq<(&'static str, &'static str)>, code: Seq<char>) -> Option<
    Seq<char>,
>
    decreases entries.len(),
{
    if entries.len() == 0 {
        None
    } else if entries.last().0@ == code {
        Some(entries.last().1@)
    } else {
        table_lookup(entries.drop_last(), code)
    }
}

/// Looking an opcode up in the entries agrees with the map they make.
pub proof fn lemma_table_lookup_map(entries: Seq<(&'static str, &'static str)>, code: Seq<char>)
    ensures
        match table_lookup(entries, code) {
            Some(v) => entries_map(entries).contains_key(code) && entries_map(entries)[code] == v,
            None => !entries_map(entries).contains_key(code),
        },
    decreases entries.len(),
{
    if entries.len() > 0 {
        lemma_table_lookup_map(entries.drop_last(), code);
    }
}

/// The name given to an opcode that the table does not hold.
pub open spec fn unknown_name(code: Seq<char>) -> Seq<char> {
    "UNKNOWN ("@ + code + ")"@
}

/// The name of `code` under the map `names`.
pub open spec fn opcode_name(names: Map<Seq<char>, Seq<char>>, code: Seq<char>) -> Seq<char> {
    if names.contains_key(code) {
        names[code]
    } else {
        unknown_name(code)
    }
}

/// Whether `a` comes before `b` character by character, a proper prefix
/// coming first.
pub open spec fn lex_lt(a: Seq<char>, b: Seq<char>) -> bool
    decreases a.len(),
{
    if a.len() == 0 {
        b.len() > 0
    } else if b.len() == 0 {
        false
    } else if (a[0] as int) < (b[0] as int) {
        true
    } else if a[0] == b[0] {
        lex_lt(a.drop_first(), b.drop_first())
    } else {
        false
    }
}

proof fn lemma_lex_irreflexive(a: Seq<char>)
    ensures
        !lex_lt(a, a),
    decreases a.len(),
{
    if a.len() > 0 {
        lemma_lex_irreflexive(a.drop_first());
    }
}

proof fn lemma_lex_transitive(a: Seq<char>, b: Seq<char>, c: Seq<char>)
    requires
        lex_lt(a, b),
        lex_lt(b, c),
    ensures
        lex_lt(a, c),
    decreases a.len(),
{
    if a.len() > 0 && b.len() > 0 && c.len() > 0 && a[0] == b[0] && b[0] == c[0] {
        lemma_lex_transitive(a.drop_first(), b.drop_first(), c.drop_first());
    }
}

/// No two entries of `entries` have the same opcode.
pub open spec fn keys_distinct(entries: Seq<(&'static str, &'static str)>) -> bool {
    forall|i: int, j: int|
        0 <= i < j < entries.len() ==> (#[trigger] entries[i]).0@ != (#[trigger] entries[j]).0@
}

proof fn lemma_table_sorted_0_20()
    ensures
        forall|i: int| 0 <= i < 20 ==> lex_lt(#[trigger] opcode_table()[i].0@, opcode_table()[i + 1].0@),
{
    reveal_with_fuel(lex_lt, 8);
    reveal_strlit("0");
    reveal_strlit("00");
    reveal_strlit("10");
    reveal_strlit("2");
    reveal_strlit("4");
    reveal_strlit("5");
    reveal_strlit("6");
    reveal_strlit("7");
    reveal_strlit("9");
    reveal_strlit("_0");
    reveal_strlit("_1");
    reveal_strlit("a");
    reveal_strlit("aai");
    reveal_strlit("abd");
    reveal_strlit("ac");
    reveal_strlit("ad");
    reveal_strlit("ai");
    reveal_strlit("am");
    reveal_strlit("ana");
    reveal_strlit("ann");
    reveal_strlit("asnd");
    assert(lex_lt(opcode_table()[0].0@, opcode_table()[1].0@));
    assert(lex_lt(opcode_table()[1].0@, opcode_table()[2].0@));
    assert(lex_lt(opcode_table()[2].0@, opcode_table()[3].0@));
    assert(lex_lt(opcode_table()[3].0@, opcode_table()[4].0@));
    assert(lex_lt(opcode_table()[4].0@, opcode_table()[5].0@));
    assert(lex_lt(opcode_table()[5].0@, opcode_table()[6].0@));
    assert(lex_lt(opcode_table()[6].0@, opcode_table()[7].0@));
    assert(lex_lt(opcode_table()[7].0@, opcode_table()[8].0@));
    assert(lex_lt(opcode_table()[8].0@, opcode_table()[9].0@));
    assert(lex_lt(opcode_table()[9].0@, opcode_table()[10].0@));
    assert(lex_lt(opcode_table()[10].0@, opcode_table()[11].0@));
    assert(lex_lt(opcode_table()[11].0@, opcode_table()[12].0@));
    assert(lex_lt(opcode_table()[12].0@, opcode_table()[13].0@));
    assert(lex_lt(opcode_table()[13].0@, opcode_table()[14].0@));
    assert(lex_lt(opcode_table()[14].0@, opcode_table()[15].0@));
    assert(lex_lt(opcode_table()[15].0@, opcode_table()[16].0@));
    assert(lex_lt(opcode_table()[16].0@, opcode_table()[17].0@));
    assert(lex_lt(opcode_table()[17].0@, opcode_table()[18].0@));
    assert(lex_lt(opcode_table()[18].0@, opcode_table()[19].0@));
    assert(lex_lt(opcode_table()[19].0@, opcode_table()[20].0@));
}

proof fn lemma_table_sorted_20_40()
    ensures
        forall|i: int| 20 <= i < 40 ==> lex_lt(#[trigger] opcode_table()[i].0@, opcode_table()[i + 1].0@),
{
    reveal_with_fuel(lex_lt, 8);
    reveal_strlit("asnd");
    reveal_strlit("atrd");
    reveal_strlit("bbm");
    reveal_strlit("bcfg");
    reveal_strlit("bdgr");
    reveal_strlit("bh");
    reveal_strlit("bmb");
    reveal_strlit("bnk");
    reveal_strlit("bo");
    reveal_strlit("bpclmr");
    reveal_strlit("bpdl");
    reveal_strlit("bppd");
    reveal_strlit("busy");
    reveal_strlit("c");
    reveal_strlit("camb");
    reveal_strlit("cbdgr");
    reveal_strlit("cct");
    reveal_strlit("cd");
    reveal_strlit("cda");
    reveal_strlit("ch");
    reveal_strlit("chg");
    assert(lex_lt(opcode_table()[20].0@, opcode_table()[21].0@));
    assert(lex_lt(opcode_table()[21].0@, opcode_table()[22].0@));
    assert(lex_lt(opcode_table()[22].0@, opcode_table()[23].0@));
    assert(lex_lt(opcode_table()[23].0@, opcode_table()[24].0@));
    assert(lex_lt(opcode_table()[24].0@, opcode_table()[25].0@));
    assert(lex_lt(opcode_table()[25].0@, opcode_table()[26].0@));
    assert(lex_lt(opcode_table()[26].0@, opcode_table()[27].0@));
    assert(lex_lt(opcode_table()[27].0@, opcode_table()[28].0@));
    assert(lex_lt(opcode_table()[28].0@, opcode_table()[29].0@));
    assert(lex_lt(opcode_table()[29].0@, opcode_table()[30].0@));
    assert(lex_lt(opcode_table()[30].0@, opcode_table()[31].0@));
    assert(lex_lt(opcode_table()[31].0@, opcode_table()[32].0@));
    assert(lex_lt(opcode_table()[32].0@, opcode_table()[33].0@));
    assert(lex_lt(opcode_table()[33].0@, opcode_table()[34].0@));
    assert(lex_lt(opcode_table()[34].0@, opcode_table()[35].0@));
    assert(lex_lt(opcode_table()[35].0@, opcode_table()[36].0@));
    assert(lex_lt(opcode_table()[36].0@, opcode_table()[37].0@));
    assert(lex_lt(opcode_table()[37].0@, opcode_table()[38].0@));
    assert(lex_lt(opcode_table()[38].0@, opcode_table()[39].0@));
    assert(lex_lt(opcode_table()[39].0@, opcode_table()[40].0@));
}

proof fn lemma_table_sorted_40_60()
    ensures
        forall|i: int| 40 <= i < 60 ==> lex_lt(#[trigger] opcode_table()[i].0@, opcode_table()[i + 1].0@),
{
    reveal_with_fuel(lex_lt, 8);
    reveal_strlit("chg");
    reveal_strlit("chgC");
    reveal_strlit("chgp");
    reveal_strlit("chi");
    reveal_strlit("chlR");
    reveal_strlit("chp");
    reveal_strlit("chrg");
    reveal_strlit("cln");
    reveal_strlit("clnL");
    reveal_strlit("clog");
    reveal_strlit("cnfm");
    reveal_strlit("cntry");
    reveal_strlit("code");
    reveal_strlit("codeP");
    reveal_strlit("codeT");
    reveal_strlit("cpt");
    reveal_strlit("cptR");
    reveal_strlit("crftr");
    reveal_strlit("crsp");
    reveal_strlit("cust");
    reveal_strlit("cv");
    assert(lex_lt(opcode_table()[40].0@, opcode_table()[41].0@));
    assert(lex_lt(opcode_table()[41].0@, opcode_table()[42].0@));
    assert(lex_lt(opcode_table()[42].0@, opcode_table()[43].0@));
    assert(lex_lt(opcode_table()[43].0@, opcode_table()[44].0@));
    assert(lex_lt(opcode_table()[44].0@, opcode_table()[45].0@));
    assert(lex_lt(opcode_table()[45].0@, opcode_table()[46].0@));
    assert(lex_lt(opcode_table()[46].0@, opcode_table()[47].0@));
    assert(lex_lt(opcode_table()[47].0@, opcode_table()[48].0@));
    assert(lex_lt(opcode_table()[48].0@, opcode_table()[49].0@));
    assert(lex_lt(opcode_table()[49].0@, opcode_table()[50].0@));
    assert(lex_lt(opcode_table()[50].0@, opcode_table()[51].0@));
    assert(lex_lt(opcode_table()[51].0@, opcode_table()[52].0@));
    assert(lex_lt(opcode_table()[52].0@, opcode_table()[53].0@));
    assert(lex_lt(opcode_table()[53].0@, opcode_table()[54].0@));
    assert(lex_lt(opcode_table()[54].0@, opcode_table()[55].0@));
    assert(lex_lt(opcode_table()[55].0@, opcode_table()[56].0@));
    assert(lex_lt(opcode_table()[56].0@, opcode_table()[57].0@));
    assert(lex_lt(opcode_table()[57].0@, opcode_table()[58].0@));
    assert(lex_lt(opcode_table()[58].0@, opcode_table()[59].0@));
    assert(lex_lt(opcode_table()[59].0@, opcode_table()[60].0@));
}

proof fn lemma_table_sorted_60_80()
    ensures
        forall|i: int| 60 <= i < 80 ==> lex_lt(#[trigger] opcode_table()[i].0@, opcode_table()[i + 1].0@),
{
    reveal_with_fuel(lex_lt, 8);
    reveal_strlit("cv");
    reveal_strlit("dbgp");
    reveal_strlit("dc");
    reveal_strlit("dch");
    reveal_strlit("debug");
    reveal_strlit("debug_rc");
    reveal_strlit("do");
    reveal_strlit("dsp");
    reveal_strlit("dsrvl");
    reveal_strlit("edMp");
    reveal_strlit("end");
    reveal_strlit("error");
    reveal_strlit("ex");
    reveal_strlit("exf");
    reveal_strlit("f");
    reveal_strlit("fe");
    reveal_strlit("fh");
    reveal_strlit("flgr");
    reveal_strlit("fp");
    reveal_strlit("frs");
    reveal_strlit("frz");
    assert(lex_lt(opcode_table()[60].0@, opcode_table()[61].0@));
    assert(lex_lt(opcode_table()[61].0@, opcode_table()[62].0@));
    assert(lex_lt(opcode_table()[62].0@, opcode_table()[63].0@));
    assert(lex_lt(opcode_table()[63].0@, opcode_table()[64].0@));
    assert(lex_lt(opcode_table()[64].0@, opcode_table()[65].0@));
    assert(lex_lt(opcode_table()[65].0@, opcode_table()[66].0@));
    assert(lex_lt(opcode_table()[66].0@, opcode_table()[67].0@));
    assert(lex_lt(opcode_table()[67].0@, opcode_table()[68].0@));
    assert(lex_lt(opcode_table()[68].0@, opcode_table()[69].0@));
    assert(lex_lt(opcode_table()[69].0@, opcode_table()[70].0@));
    assert(lex_lt(opcode_table()[70].0@, opcode_table()[71].0@));
    assert(lex_lt(opcode_table()[71].0@, opcode_table()[72].0@));
    assert(lex_lt(opcode_table()[72].0@, opcode_table()[73].0@));
    assert(lex_lt(opcode_table()[73].0@, opcode_table()[74].0@));
    assert(lex_lt(opcode_table()[74].0@, opcode_table()[75].0@));
    assert(lex_lt(opcode_table()[75].0@, opcode_table()[76].0@));
    assert(lex_lt(opcode_table()[76].0@, opcode_table()[77].0@));
    assert(lex_lt(opcode_table()[77].0@, opcode_table()[78].0@));
    assert(lex_lt(opcode_table()[78].0@, opcode_table()[79].0@));
    assert(lex_lt(opcode_table()[79].0@, opcode_table()[80].0@));
}

proof fn lemma_table_sorted_80_100()
    ensures
        forall|i: int| 80 <= i < 100 ==> lex_lt(#[trigger] opcode_table()[i].0@, opcode_table()[i + 1].0@),
{
    reveal_with_fuel(lex_lt, 8);
    reveal_strlit("frz");
    reveal_strlit("gameAnnouncement");
    reveal_strlit("gbdr");
    reveal_strlit("gfrnd");
    reveal_strlit("gmc");
    reveal_strlit("gmsg");
    reveal_strlit("gsc");
    reveal_strlit("gt");
    reveal_strlit("gte");
    reveal_strlit("gv");
    reveal_strlit("h");
    reveal_strlit("hbdb");
    reveal_strlit("hdsr");
    reveal_strlit("hlpr");
    reveal_strlit("inat");
    reveal_strlit("inatA");
    reveal_strlit("init");
    reveal_strlit("inst-id");
    reveal_strlit("io-init");
    reveal_strlit("is");
    reveal_strlit("jg");
    assert(lex_lt(opcode_table()[80].0@, opcode_table()[81].0@));
    assert(lex_lt(opcode_table()[81].0@, opcode_table()[82].0@));
    assert(lex_lt(opcode_table()[82].0@, opcode_table()[83].0@));
    assert(lex_lt(opcode_table()[83].0@, opcode_table()[84].0@));
    assert(lex_lt(opcode_table()[84].0@, opcode_table()[85].0@));
    assert(lex_lt(opcode_table()[85].0@, opcode_table()[86].0@));
    assert(lex_lt(opcode_table()[86].0@, opcode_table()[87].0@));
    assert(lex_lt(opcode_table()[87].0@, opcode_table()[88].0@));
    assert(lex_lt(opcode_table()[88].0@, opcode_table()[89].0@));
    assert(lex_lt(opcode_table()[89].0@, opcode_table()[90].0@));
    assert(lex_lt(opcode_table()[90].0@, opcode_table()[91].0@));
    assert(lex_lt(opcode_table()[91].0@, opcode_table()[92].0@));
    assert(lex_lt(opcode_table()[92].0@, opcode_table()[93].0@));
    assert(lex_lt(opcode_table()[93].0@, opcode_table()[94].0@));
    assert(lex_lt(opcode_table()[94].0@, opcode_table()[95].0@));
    assert(lex_lt(opcode_table()[95].0@, opcode_table()[96].0@));
    assert(lex_lt(opcode_table()[96].0@, opcode_table()[97].0@));
    assert(lex_lt(opcode_table()[97].0@, opcode_table()[98].0@));
    assert(lex_lt(opcode_table()[98].0@, opcode_table()[99].0@));
    assert(lex_lt(opcode_table()[99].0@, opcode_table()[100].0@));
}

proof fn lemma_table_sorted_100_120()
    ensures
        forall|i: int| 100 <= i < 120 ==> lex_lt(#[trigger] opcode_table()[i].0@, opcode_table()[i + 1].0@),
{
    reveal_with_fuel(lex_lt, 8);
    reveal_strlit("jg");
    reveal_strlit("jnk");
    reveal_strlit("k");
    reveal_strlit("kml");
    reveal_strlit("kpd");
    reveal_strlit("kpdf");
    reveal_strlit("krm");
    reveal_strlit("krp");
    reveal_strlit("krt");
    reveal_strlit("ksL");
    reveal_strlit("kst");
    reveal_strlit("l");
    reveal_strlit("lkt");
    reveal_strlit("lm");
    reveal_strlit("lmsg");
    reveal_strlit("lo");
    reveal_strlit("load");
    reveal_strlit("loadS");
    reveal_strlit("lock");
    reveal_strlit("lv");
    reveal_strlit("mf");
    assert(lex_lt(opcode_table()[100].0@, opcode_table()[101].0@));
    assert(lex_lt(opcode_table()[101].0@, opcode_table()[102].0@));
    assert(lex_lt(opcode_table()[102].0@, opcode_table()[103].0@));
    assert(lex_lt(opcode_table()[103].0@, opcode_table()[104].0@));
    assert(lex_lt(opcode_table()[104].0@, opcode_table()[105].0@));
    assert(lex_lt(opcode_table()[105].0@, opcode_table()[106].0@));
    assert(lex_lt(opcode_table()[106].0@, opcode_table()[107].0@));
    assert(lex_lt(opcode_table()[107].0@, opcode_table()[108].0@));
    assert(lex_lt(opcode_table()[108].0@, opcode_table()[109].0@));
    assert(lex_lt(opcode_table()[109].0@, opcode_table()[110].0@));
    assert(lex_lt(opcode_table()[110].0@, opcode_table()[111].0@));
    assert(lex_lt(opcode_table()[111].0@, opcode_table()[112].0@));
    assert(lex_lt(opcode_table()[112].0@, opcode_table()[113].0@));
    assert(lex_lt(opcode_table()[113].0@, opcode_table()[114].0@));
    assert(lex_lt(opcode_table()[114].0@, opcode_table()[115].0@));
    assert(lex_lt(opcode_table()[115].0@, opcode_table()[116].0@));
    assert(lex_lt(opcode_table()[116].0@, opcode_table()[117].0@));
    assert(lex_lt(opcode_table()[117].0@, opcode_table()[118].0@));
    assert(lex_lt(opcode_table()[118].0@, opcode_table()[119].0@));
    assert(lex_lt(opcode_table()[119].0@, opcode_table()[120].0@));
}

proof fn lemma_table_sorted_120_140()
    ensures
        forall|i: int| 120 <= i < 140 ==> lex_lt(#[trigger] opcode_table()[i].0@, opcode_table()[i + 1].0@),
{
    reveal_with_fuel(lex_lt, 8);
    reveal_strlit("mf");
    reveal_strlit("mo");
    reveal_strlit("mp");
    reveal_strlit("mpos");
    reveal_strlit("mv");
    reveal_strlit("mybx");
    reveal_strlit("n");
    reveal_strlit("nbdgr");
    reveal_strlit("nftR");
    reveal_strlit("nmeR");
    reveal_strlit("noc");
    reveal_strlit("nwT");
    reveal_strlit("obj");
    reveal_strlit("p");
    reveal_strlit("pErr");
    reveal_strlit("pRes");
    reveal_strlit("pdR");
    reveal_strlit("pi");
    reveal_strlit("pir");
    reveal_strlit("pk");
    reveal_strlit("ppr");
    assert(lex_lt(opcode_table()[120].0@, opcode_table()[121].0@));
    assert(lex_lt(opcode_table()[121].0@, opcode_table()[122].0@));
    assert(lex_lt(opcode_table()[122].0@, opcode_table()[123].0@));
    assert(lex_lt(opcode_table()[123].0@, opcode_table()[124].0@));
    assert(lex_lt(opcode_table()[124].0@, opcode_table()[125].0@));
    assert(lex_lt(opcode_table()[125].0@, opcode_table()[126].0@));
    assert(lex_lt(opcode_table()[126].0@, opcode_table()[127].0@));
    assert(lex_lt(opcode_table()[127].0@, opcode_table()[128].0@));
    assert(lex_lt(opcode_table()[128].0@, opcode_table()[129].0@));
    assert(lex_lt(opcode_table()[129].0@, opcode_table()[130].0@));
    assert(lex_lt(opcode_table()[130].0@, opcode_table()[131].0@));
    assert(lex_lt(opcode_table()[131].0@, opcode_table()[132].0@));
    assert(lex_lt(opcode_table()[132].0@, opcode_table()[133].0@));
    assert(lex_lt(opcode_table()[133].0@, opcode_table()[134].0@));
    assert(lex_lt(opcode_table()[134].0@, opcode_table()[135].0@));
    assert(lex_lt(opcode_table()[135].0@, opcode_table()[136].0@));
    assert(lex_lt(opcode_table()[136].0@, opcode_table()[137].0@));
    assert(lex_lt(opcode_table()[137].0@, opcode_table()[138].0@));
    assert(lex_lt(opcode_table()[138].0@, opcode_table()[139].0@));
    assert(lex_lt(opcode_table()[139].0@, opcode_table()[140].0@));
}

proof fn lemma_table_sorted_140_160()
    ensures
        forall|i: int| 140 <= i < 160 ==> lex_lt(#[trigger] opcode_table()[i].0@, opcode_table()[i + 1].0@),
{
    reveal_with_fuel(lex_lt, 8);
    reveal_strlit("ppr");
    reveal_strlit("pr");
    reveal_strlit("prc");
    reveal_strlit("pre");
    reveal_strlit("prmR");
    reveal_strlit("prpR");
    reveal_strlit("prr");
    reveal_strlit("pur");
    reveal_strlit("purb");
    reveal_strlit("purbp");
    reveal_strlit("purbpl");
    reveal_strlit("purprm");
    reveal_strlit("pwup");
    reveal_strlit("rad");
    reveal_strlit("rai");
    reveal_strlit("rds");
    reveal_strlit("ready");
    reveal_strlit("recps");
    reveal_strlit("rfl");
    reveal_strlit("rg");
    reveal_strlit("rml");
    assert(lex_lt(opcode_table()[140].0@, opcode_table()[141].0@));
    assert(lex_lt(opcode_table()[141].0@, opcode_table()[142].0@));
    assert(lex_lt(opcode_table()[142].0@, opcode_table()[143].0@));
    assert(lex_lt(opcode_table()[143].0@, opcode_table()[144].0@));
    assert(lex_lt(opcode_table()[144].0@, opcode_table()[145].0@));
    assert(lex_lt(opcode_table()[145].0@, opcode_table()[146].0@));
    assert(lex_lt(opcode_table()[146].0@, opcode_table()[147].0@));
    assert(lex_lt(opcode_table()[147].0@, opcode_table()[148].0@));
    assert(lex_lt(opcode_table()[148].0@, opcode_table()[149].0@));
    assert(lex_lt(opcode_table()[149].0@, opcode_table()[150].0@));
    assert(lex_lt(opcode_table()[150].0@, opcode_table()[151].0@));
    assert(lex_lt(opcode_table()[151].0@, opcode_table()[152].0@));
    assert(lex_lt(opcode_table()[152].0@, opcode_table()[153].0@));
    assert(lex_lt(opcode_table()[153].0@, opcode_table()[154].0@));
    assert(lex_lt(opcode_table()[154].0@, opcode_table()[155].0@));
    assert(lex_lt(opcode_table()[155].0@, opcode_table()[156].0@));
    assert(lex_lt(opcode_table()[156].0@, opcode_table()[157].0@));
    assert(lex_lt(opcode_table()[157].0@, opcode_table()[158].0@));
    assert(lex_lt(opcode_table()[158].0@, opcode_table()[159].0@));
    assert(lex_lt(opcode_table()[159].0@, opcode_table()[160].0@));
}

proof fn lemma_table_sorted_160_180()
    ensures
        forall|i: int| 160 <= i < 180 ==> lex_lt(#[trigger] opcode_table()[i].0@, opcode_table()[i + 1].0@),
{
    reveal_with_fuel(lex_lt, 8);
    reveal_strlit("rml");
    reveal_strlit("rmm");
    reveal_strlit("ro");
    reveal_strlit("rrqdxp");
    reveal_strlit("rsnd");
    reveal_strlit("s");
    reveal_strlit("sb");
    reveal_strlit("scr");
    reveal_strlit("sd");
    reveal_strlit("shk");
    reveal_strlit("sic");
    reveal_strlit("skin");
    reveal_strlit("skinF");
    reveal_strlit("slo");
    reveal_strlit("smybx");
    reveal_strlit("so");
    reveal_strlit("sp");
    reveal_strlit("spb");
    reveal_strlit("spin");
    reveal_strlit("spinH");
    reveal_strlit("spinKR");
    assert(lex_lt(opcode_table()[160].0@, opcode_table()[161].0@));
    assert(lex_lt(opcode_table()[161].0@, opcode_table()[162].0@));
    assert(lex_lt(opcode_table()[162].0@, opcode_table()[163].0@));
    assert(lex_lt(opcode_table()[163].0@, opcode_table()[164].0@));
    assert(lex_lt(opcode_table()[164].0@, opcode_table()[165].0@));
    assert(lex_lt(opcode_table()[165].0@, opcode_table()[166].0@));
    assert(lex_lt(opcode_table()[166].0@, opcode_table()[167].0@));
    assert(lex_lt(opcode_table()[167].0@, opcode_table()[168].0@));
    assert(lex_lt(opcode_table()[168].0@, opcode_table()[169].0@));
    assert(lex_lt(opcode_table()[169].0@, opcode_table()[170].0@));
    assert(lex_lt(opcode_table()[170].0@, opcode_table()[171].0@));
    assert(lex_lt(opcode_table()[171].0@, opcode_table()[172].0@));
    assert(lex_lt(opcode_table()[172].0@, opcode_table()[173].0@));
    assert(lex_lt(opcode_table()[173].0@, opcode_table()[174].0@));
    assert(lex_lt(opcode_table()[174].0@, opcode_table()[175].0@));
    assert(lex_lt(opcode_table()[175].0@, opcode_table()[176].0@));
    assert(lex_lt(opcode_table()[176].0@, opcode_table()[177].0@));
    assert(lex_lt(opcode_table()[177].0@, opcode_table()[178].0@));
    assert(lex_lt(opcode_table()[178].0@, opcode_table()[179].0@));
    assert(lex_lt(opcode_table()[179].0@, opcode_table()[180].0@));
}

proof fn lemma_table_sorted_180_200()
    ensures
        forall|i: int| 180 <= i < 200 ==> lex_lt(#[trigger] opcode_table()[i].0@, opcode_table()[i + 1].0@),
{
    reveal_with_fuel(lex_lt, 8);
    reveal_strlit("spinKR");
    reveal_strlit("spinW");
    reveal_strlit("spk");
    reveal_strlit("sso");
    reveal_strlit("st");
    reveal_strlit("start");
    reveal_strlit("svybRes");
    reveal_strlit("t");
    reveal_strlit("tch");
    reveal_strlit("tgui");
    reveal_strlit("tm");
    reveal_strlit("trd");
    reveal_strlit("ts");
    reveal_strlit("twitchDropsResponse");
    reveal_strlit("twitchRemoveResponse");
    reveal_strlit("twitchVerifyResponse");
    reveal_strlit("tx");
    reveal_strlit("ua");
    reveal_strlit("uai");
    reveal_strlit("uamo");
    reveal_strlit("uchp");
    assert(lex_lt(opcode_table()[180].0@, opcode_table()[181].0@));
    assert(lex_lt(opcode_table()[181].0@, opcode_table()[182].0@));
    assert(lex_lt(opcode_table()[182].0@, opcode_table()[183].0@));
    assert(lex_lt(opcode_table()[183].0@, opcode_table()[184].0@));
    assert(lex_lt(opcode_table()[184].0@, opcode_table()[185].0@));
    assert(lex_lt(opcode_table()[185].0@, opcode_table()[186].0@));
    assert(lex_lt(opcode_table()[186].0@, opcode_table()[187].0@));
    assert(lex_lt(opcode_table()[187].0@, opcode_table()[188].0@));
    assert(lex_lt(opcode_table()[188].0@, opcode_table()[189].0@));
    assert(lex_lt(opcode_table()[189].0@, opcode_table()[190].0@));
    assert(lex_lt(opcode_table()[190].0@, opcode_table()[191].0@));
    assert(lex_lt(opcode_table()[191].0@, opcode_table()[192].0@));
    assert(lex_lt(opcode_table()[192].0@, opcode_table()[193].0@));
    assert(lex_lt(opcode_table()[193].0@, opcode_table()[194].0@));
    assert(lex_lt(opcode_table()[194].0@, opcode_table()[195].0@));
    assert(lex_lt(opcode_table()[195].0@, opcode_table()[196].0@));
    assert(lex_lt(opcode_table()[196].0@, opcode_table()[197].0@));
    assert(lex_lt(opcode_table()[197].0@, opcode_table()[198].0@));
    assert(lex_lt(opcode_table()[198].0@, opcode_table()[199].0@));
    assert(lex_lt(opcode_table()[199].0@, opcode_table()[200].0@));
}

proof fn lemma_table_sorted_200_220()
    ensures
        forall|i: int| 200 <= i < 220 ==> lex_lt(#[trigger] opcode_table()[i].0@, opcode_table()[i + 1].0@),
{
    reveal_with_fuel(lex_lt, 8);
    reveal_strlit("uchp");
    reveal_strlit("uct");
    reveal_strlit("uf");
    reveal_strlit("ufi");
    reveal_strlit("ufl");
    reveal_strlit("ufp");
    reveal_strlit("uh");
    reveal_strlit("uid");
    reveal_strlit("ulb");
    reveal_strlit("ulm");
    reveal_strlit("unb");
    reveal_strlit("unbS");
    reveal_strlit("unl");
    reveal_strlit("uobj");
    reveal_strlit("up");
    reveal_strlit("upPR");
    reveal_strlit("upR");
    reveal_strlit("upk");
    reveal_strlit("upp");
    reveal_strlit("uprm");
    reveal_strlit("upz");
    assert(lex_lt(opcode_table()[200].0@, opcode_table()[201].0@));
    assert(lex_lt(opcode_table()[201].0@, opcode_table()[202].0@));
    assert(lex_lt(opcode_table()[202].0@, opcode_table()[203].0@));
    assert(lex_lt(opcode_table()[203].0@, opcode_table()[204].0@));
    assert(lex_lt(opcode_table()[204].0@, opcode_table()[205].0@));
    assert(lex_lt(opcode_table()[205].0@, opcode_table()[206].0@));
    assert(lex_lt(opcode_table()[206].0@, opcode_table()[207].0@));
    assert(lex_lt(opcode_table()[207].0@, opcode_table()[208].0@));
    assert(lex_lt(opcode_table()[208].0@, opcode_table()[209].0@));
    assert(lex_lt(opcode_table()[209].0@, opcode_table()[210].0@));
    assert(lex_lt(opcode_table()[210].0@, opcode_table()[211].0@));
    assert(lex_lt(opcode_table()[211].0@, opcode_table()[212].0@));
    assert(lex_lt(opcode_table()[212].0@, opcode_table()[213].0@));
    assert(lex_lt(opcode_table()[213].0@, opcode_table()[214].0@));
    assert(lex_lt(opcode_table()[214].0@, opcode_table()[215].0@));
    assert(lex_lt(opcode_table()[215].0@, opcode_table()[216].0@));
    assert(lex_lt(opcode_table()[216].0@, opcode_table()[217].0@));
    assert(lex_lt(opcode_table()[217].0@, opcode_table()[218].0@));
    assert(lex_lt(opcode_table()[218].0@, opcode_table()[219].0@));
    assert(lex_lt(opcode_table()[219].0@, opcode_table()[220].0@));
}

proof fn lemma_table_sorted_220_233()
    ensures
        forall|i: int| 220 <= i < 233 ==> lex_lt(#[trigger] opcode_table()[i].0@, opcode_table()[i + 1].0@),
{
    reveal_with_fuel(lex_lt, 8);
    reveal_strlit("upz");
    reveal_strlit("utrd");
    reveal_strlit("vad");
    reveal_strlit("vc");
    reveal_strlit("vf");
    reveal_strlit("vk");
    reveal_strlit("vm");
    reveal_strlit("vmm");
    reveal_strlit("vmms");
    reveal_strlit("vr");
    reveal_strlit("wep");
    reveal_strlit("wstk");
    reveal_strlit("xst");
    reveal_strlit("zn");
    assert(lex_lt(opcode_table()[220].0@, opcode_table()[221].0@));
    assert(lex_lt(opcode_table()[221].0@, opcode_table()[222].0@));
    assert(lex_lt(opcode_table()[222].0@, opcode_table()[223].0@));
    assert(lex_lt(opcode_table()[223].0@, opcode_table()[224].0@));
    assert(lex_lt(opcode_table()[224].0@, opcode_table()[225].0@));
    assert(lex_lt(opcode_table()[225].0@, opcode_table()[226].0@));
    assert(lex_lt(opcode_table()[226].0@, opcode_table()[227].0@));
    assert(lex_lt(opcode_table()[227].0@, opcode_table()[228].0@));
    assert(lex_lt(opcode_table()[228].0@, opcode_table()[229].0@));
    assert(lex_lt(opcode_table()[229].0@, opcode_table()[230].0@));
    assert(lex_lt(opcode_table()[230].0@, opcode_table()[231].0@));
    assert(lex_lt(opcode_table()[231].0@, opcode_table()[232].0@));
    assert(lex_lt(opcode_table()[232].0@, opcode_table()[233].0@));
}

/// Each opcode of the table comes before the next one.
proof fn lemma_table_sorted()
    ensures
        forall|i: int| 0 <= i < opcode_table().len() - 1 ==> lex_lt(
            #[trigger] opcode_table()[i].0@,
            opcode_table()[i + 1].0@,
        ),
{
    lemma_table_sorted_0_20();
    lemma_table_sorted_20_40();
    lemma_table_sorted_40_60();
    lemma_table_sorted_60_80();
    lemma_table_sorted_80_100();
    lemma_table_sorted_100_120();
    lemma_table_sorted_120_140();
    lemma_table_sorted_140_160();
    lemma_table_sorted_160_180();
    lemma_table_sorted_180_200();
    lemma_table_sorted_200_220();
    lemma_table_sorted_220_233();
}

/// Entries whose opcodes each come before the next hold no opcode twice.
proof fn lemma_sorted_keys_distinct(entries: Seq<(&'static str, &'static str)>)
    requires
        forall|i: int| 0 <= i < entries.len() - 1 ==> lex_lt(
            #[trigger] entries[i].0@,
            entries[i + 1].0@,
        ),
    ensures
        keys_distinct(entries),
{
    assert forall|i: int, j: int| 0 <= i < j < entries.len() implies lex_lt(
        entries[i].0@,
        entries[j].0@,
    ) by {
        lemma_sorted_chain(entries, i, j);
    }
    assert forall|i: int, j: int| 0 <= i < j < entries.len() implies (#[trigger] entries[i]).0@
        != (#[trigger] entries[j]).0@ by {
        lemma_sorted_chain(entries, i, j);
        lemma_lex_irreflexive(entries[i].0@);
    }
}

proof fn lemma_sorted_chain(entries: Seq<(&'static str, &'static str)>, i: int, j: int)
    requires
        0 <= i < j < entries.len(),
        forall|k: int| 0 <= k < entries.len() - 1 ==> lex_lt(
            #[trigger] entries[k].0@,
            entries[k + 1].0@,
        ),
    ensures
        lex_lt(entries[i].0@, entries[j].0@),
    decreases j - i,
{
    if j > i + 1 {
        lemma_sorted_chain(entries, i, j - 1);
        assert(lex_lt(entries[j - 1].0@, entries[j].0@));
        lemma_lex_transitive(entries[i].0@, entries[j - 1].0@, entries[j].0@);
    }
}

/// No opcode is entered into the table twice.
pub proof fn law_opcode_table_keys_distinct()
    ensures
        keys_distinct(opcode_table()),
{
    lemma_table_sorted();
    lemma_sorted_keys_distinct(opcode_table());
}

/// In entries that hold no opcode twice, each entered opcode is named by its
/// own entry.
pub proof fn law_distinct_entries_named(entries: Seq<(&'static str, &'static str)>, i: int)
    requires
        keys_distinct(entries),
        0 <= i < entries.len(),
    ensures
        entries_map(entries).contains_key(entries[i].0@),
        entries_map(entries)[entries[i].0@] == entries[i].1@,
        table_lookup(entries, entries[i].0@) == Some(entries[i].1@),
    decreases entries.len(),
{
    let last = entries.len() - 1;
    if i < last {
        let rest = entries.drop_last();
        assert(keys_distinct(rest)) by {
            assert forall|a: int, b: int| 0 <= a < b < rest.len() implies (#[trigger] rest[a]).0@
                != (#[trigger] rest[b]).0@ by {
                assert(rest[a] == entries[a] && rest[b] == entries[b]);
            }
        }
        law_distinct_entries_named(rest, i);
        assert(rest[i] == entries[i]);
        assert(entries[i].0@ != entries[last].0@);
    }
    lemma_table_lookup_map(entries, entries[i].0@);
}

/// Every opcode of the table is named by its own entry: the parser's name
/// for it is the table's.
pub proof fn law_opcode_table_names(i: int)
    requires
        0 <= i < opcode_table().len(),
    ensures
        entries_map(opcode_table()).contains_key(opcode_table()[i].0@),
        opcode_name(entries_map(opcode_table()), opcode_table()[i].0@) == opcode_table()[i].1@,
{
    law_opcode_table_keys_distinct();
    law_distinct_entries_named(opcode_table(), i);
}

/// The entries of the table, built in table order.
pub(crate) fn table_entries() -> (v: Vec<(&'static str, &'static str)>)
    ensures
        v@ == opcode_table(),
{
    vec![
        ("0", "ADD_PLAYERS"),
        ("00", "UPDATE_NAMES"),
        ("10", "GET_ASSIST"),
        ("2", "REMOVE_PLAYER"),
        ("4", "DO_DAMAGE"),
        ("5", "GET_SCORE"),
        ("6", "GET_KILL"),
        ("7", "UPDATE_LEADERS"),
        ("9", "SHOW_TRACER"),
        ("_0", "RPC_SUCCESS"),
        ("_1", "RPC_ERROR"),
        ("a", "ACCOUNT_RESPONSE"),
        ("aai", "C_SPAWN"),
        ("abd", "ALL_BUNDLE_DATA"),
        ("ac", "ACTION_FEED"),
        ("ad", "SYNC_AIRDROP"),
        ("ai", "SYNC_ALL_AI"),
        ("am", "ADD_MEDAL"),
        ("ana", "SERV_ANIM"),
        ("ann", "ANNOUNCEMENT"),
        ("asnd", "ADD_PLAYER_SOUND"),
        ("atrd", "TRADE_A_RESPONSE"),
        ("bbm", "BOMBARDMENT_UPDATE"),
        ("bcfg", "BOTS_POPUP"),
        ("bdgr", "BADGE_UPDATE"),
        ("bh", "UPDATE_HEAD_SIZE"),
        ("bmb", "SHOW_BOMBARDMENT"),
        ("bnk", "UPDATE_BANK"),
        ("bo", "BUILD_OBJECT"),
        ("bpclmr", "CLAIM_ITEM_RESPONSE"),
        ("bpdl", "DATA_LOADED"),
        ("bppd", "SYNC_BP_PROG"),
        ("busy", "SET_BUSY"),
        ("c", "PLAYER_ANIM"),
        ("camb", "CHANGE_AMBIENT"),
        ("cbdgr", "BADGE_CLAIM_RESPONSE"),
        ("cct", "CAPTURE_CONTROL"),
        ("cd", "SYNC_P_CON_DATA"),
        ("cda", "SYNC_P_CON_OBJ"),
        ("ch", "ADD_CHAT"),
        ("chg", "UPDATE_CHALLENGES"),
        ("chgC", "CHALLENGE_COMPLETED"),
        ("chgp", "CHANGE_POSITION"),
        ("chi", "ADD_CHATI18N"),
        ("chlR", "UPDATE_CHALLENGE_REWARDS"),
        ("chp", "CHECK_POINT_SET"),
        ("chrg", "SET_PLAYER_CHARGED"),
        ("cln", "CLAN_RESPONSE"),
        ("clnL", "CLAN_LEAVE_RESPONSE"),
        ("clog", "CONSOLE_LOG"),
        ("cnfm", "CONFIRM_INTERACTION"),
        ("cntry", "UPDATE_COUNTRY"),
        ("code", "ENTER_CODE"),
        ("codeP", "CODE_PASSED"),
        ("codeT", "UPDATE_CODE_TIMER"),
        ("cpt", "cpt"),
        ("cptR", "cptR"),
        ("crftr", "CRAFT_RESPONSE"),
        ("crsp", "CREATE_SPAWNABLE"),
        ("cust", "CUSTOM_RESPONSE"),
        ("cv", "CUSTOM_VAL"),
        ("dbgp", "ADD_DEBUG_POING"),
        ("dc", "DISCONNECT"),
        ("dch", "DEBUG_COMPLEX_HITBOX"),
        ("debug", "SET_DEBUG"),
        ("debug_rc", "DEBUG_RAYCAST"),
        ("do", "DESTROY_GAMEOBJECT"),
        ("dsp", "DISPOSE_SPAWNABLE"),
        ("dsrvl", "DEDI_BUY_RESPONSE"),
        ("edMp", "EDIT_MAP"),
        ("end", "END_GAME"),
        ("error", "ERROR"),
        ("ex", "EXPLOSION"),
        ("exf", "SET_EXPERIMENTAL"),
        ("f", "SYNC_FAILED"),
        ("fe", "FAILED_TO_ENDER"),
        ("fh", "SET_HIDDEN"),
        ("flgr", "COUNTRY_FLAG_UPDATE"),
        ("fp", "FORCE_PING"),
        ("frs", "ENTER_GAME"),
        ("frz", "SET_FROZEN"),
        ("gameAnnouncement", "GAME_ACCOUNCEMENT"),
        ("gbdr", "AVAILABLE_BUNDLE_DATA"),
        ("gfrnd", "FRIENDS_LIST_RESPONSE"),
        ("gmc", "UPDATE_MAIL"),
        ("gmsg", "UPDATE_GAME_MESSAGE"),
        ("gsc", "GAME_STATE_CHANGED"),
        ("gt", "LOG_TIME"),
        ("gte", "UPDATE_GATE"),
        ("gv", "UPDATE_GLOBAL_VALUE"),
        ("h", "CHANGE_HEALTH"),
        ("hbdb", "ADD_HITBOX_HELPER"),
        ("hdsr", "HIDE_STATUS"),
        ("hlpr", "ADD_HELPER_C"),
        ("inat", "PLAYER_INTERACTIONS"),
        ("inatA", "ALL_PLAYER_INTERACTIONS"),
        ("init", "INIT_GAME"),
        ("inst-id", "GAME_INSTANCE_ID"),
        ("io-init", "IO_INIT"),
        ("is", "TRIGGER_IMG_SOUND"),
        ("jg", "SET_JUGGERNAUT"),
        ("jnk", "FOUND_JUNK"),
        ("k", "UPDATE_PLAYERS"),
        ("kml", "ADD_MAIL"),
        ("kpd", "KPD_RESPONSE"),
        ("kpdf", "KPD_RESET"),
        ("krm", "UPDATE_KRUM_MACHINE"),
        ("krp", "KR_PACKAGE"),
        ("krt", "UPDATE_KR_TAGS"),
        ("ksL", "SCRIPT_LOG"),
        ("kst", "KILL_STREAK_M"),
        ("l", "SYNC_PLAYER"),
        ("lkt", "UPDATE_LOCKOUT_TIM"),
        ("lm", "LOCK_MOVE"),
        ("lmsg", "LOADING_POPUP"),
        ("lo", "SYNC_NEW_OBJECTS"),
        ("load", "INIT_LOAD"),
        ("loadS", "UPDATE_SETTINGS"),
        ("lock", "LOCK_PLAYER"),
        ("lv", "UPDATE_LIVES"),
        ("mf", "TELEPORT_FROM_NODE"),
        ("mo", "TELEPORT_TO_NODE"),
        ("mp", "INTER_M_PROG"),
        ("mpos", "MARK_POSITION"),
        ("mv", "UPD_MATCH_VOTE"),
        ("mybx", "UPDATE_MYSTERY_BOX"),
        ("n", "NUKE_UPDATE"),
        ("nbdgr", "BADGE_CLAIM_MULTI_RES"),
        ("nftR", "NFT_RESPONSE"),
        ("nmeR", "ALIAS_RESPONSE"),
        ("noc", "SET_NOCLIP"),
        ("nwT", "NEW_TOKEN"),
        ("obj", "SET_OBJECTIVE"),
        ("p", "INTER_PROG"),
        ("pErr", "PURCHASE_ERROR"),
        ("pRes", "SHOW_POPUP"),
        ("pdR", "PROMOS_RESPONSE"),
        ("pi", "SOCKET_PING"),
        ("pir", "SOCKET_PING_RESULT"),
        ("pk", "EFFECT"),
        ("ppr", "PURCHASE_PRODUCT_RESPONSE"),
        ("pr", "SHOW_PROJECTILE"),
        ("prc", "PLAYER_RECONNECTED"),
        ("pre", "END_PROJECTILE"),
        ("prmR", "PREMIUM_RESPONSE"),
        ("prpR", "UPDATE_PROP_ROT"),
        ("prr", "POPUP_REGISTER_REWARDS"),
        ("pur", "PURCHASE_RESPONSE"),
        ("purb", "PURCHASE_BUNDLE_RESPONSE"),
        ("purbp", "PURCHASE_RESPONSE_2"),
        ("purbpl", "PURCHASE_LEVEL_RESPONSE"),
        ("purprm", "PURCHASE_PREMIUM_RESPONSE"),
        ("pwup", "UPDATE_POWER_UP"),
        ("rad", "REMOVE_AIRDROP_BY_SID"),
        ("rai", "REMOVE_BY_SID"),
        ("rds", "UPDATE_ROUNDS_DIS"),
        ("ready", "READY"),
        ("recps", "CRAFT_DATA_RESPONSE"),
        ("rfl", "REFILL_KNIFE"),
        ("rg", "REGEN_PLAYER"),
        ("rml", "OPEN_MAIL"),
        ("rmm", "METAMASK_UNLINK_RESPONSE"),
        ("ro", "RESPAWN_OBJ"),
        ("rrqdxp", "RECIEVE_DOUBLE_XP"),
        ("rsnd", "REMOVE_PLAYER_SOUND"),
        ("s", "PLAYER_SOUND"),
        ("sb", "SHOW_SPEECH_BUBBLE"),
        ("scr", "JUMP_SCARE"),
        ("sd", "CUSTOM_NETWORK_MESSAGE"),
        ("shk", "SHAKE"),
        ("sic", "SET_SHARING_IS_CARING"),
        ("skin", "SKIN_REWARD"),
        ("skinF", "SKIN_FOUND_MESSAGE"),
        ("slo", "SYNC_LIVE_OBJECTS"),
        ("smybx", "SWITCH_MYSTERY_BOX"),
        ("so", "PLAY_SOUND"),
        ("sp", "ADD_SPRAY"),
        ("spb", "SET_SPEED_BOOST"),
        ("spin", "SPIN_RESPONSE"),
        ("spinH", "SAVE_SPIN_HISTORY"),
        ("spinKR", "SPIN_KR"),
        ("spinW", "SPIN_WHEEL_RESPONSE"),
        ("spk", "SET_PLAYER_KEY"),
        ("sso", "STOP_SOUND"),
        ("st", "KILL_STREAK"),
        ("start", "START_GAME"),
        ("svybRes", "SURVEY_BUNDLE_RESPONSE"),
        ("t", "UPDATE_TIMER"),
        ("tch", "ADD_TRADE_CHAT"),
        ("tgui", "TOGGLE_ELEMENT"),
        ("tm", "UPDATE_TEAM"),
        ("trd", "TRADE_RESPONSE"),
        ("ts", "TEAM_SCORE"),
        ("twitchDropsResponse", "TWITCH_DROPS_RESPONSE"),
        ("twitchRemoveResponse", "TWITCH_REMOVE_RESPONSE"),
        ("twitchVerifyResponse", "TWITCH_VERIFY_RESPONSE"),
        ("tx", "TEXT_POPUP"),
        ("ua", "UPDATE_ACCOUNT"),
        ("uai", "UPDATE_ASSET_ID"),
        ("uamo", "UPDATE_AMMO"),
        ("uchp", "UPDATE_CHALLENGES_PROGRESS"),
        ("uct", "UPDATE_DOM_ZONE"),
        ("uf", "UPDATE_FUNDS"),
        ("ufi", "UPDATE_FLAG_INFO"),
        ("ufl", "UPDATE_FLAG"),
        ("ufp", "UPDATE_FLAG_PING"),
        ("uh", "UPDATE_HOST"),
        ("uid", "CON_UID"),
        ("ulb", "UPDATE_LEADER_BOARD"),
        ("ulm", "UNLOCK_MOVE"),
        ("unb", "UNBOX_MESSAGE"),
        ("unbS", "UNBOX_MESSSAGE_S"),
        ("unl", "SET_UNLIMITED"),
        ("uobj", "UPDATE_OBJECTIVE"),
        ("up", "UPDATE_PROP"),
        ("upPR", "UPLOAD_PROFILE_RESPONSE"),
        ("upR", "UPLOAD_RESPONSE"),
        ("upk", "UPDATE_ZOMBIE_PERKS"),
        ("upp", "NEW_PASS_RESPONSE"),
        ("uprm", "UPDATE_PREMIUM_AMOUNT"),
        ("upz", "UPDATE_ZOMBIE_ROUND"),
        ("utrd", "UPDATE_TRADE_RESPONSE"),
        ("vad", "FORCE_VIDEO_AD"),
        ("vc", "VOICE_CHAT"),
        ("vf", "VOTE_FORFEIT"),
        ("vk", "VOTE_KICK"),
        ("vm", "VOTE_MAP"),
        ("vmm", "OPEN_METAMASK_AUTH"),
        ("vmms", "METAMASK_LINK_RESPONSE"),
        ("vr", "REDEEM_VOUCHER_RESPONSE"),
        ("wep", "SET_WEAPON"),
        ("wstk", "UPDATE_WEAPON_STREAK"),
        ("xst", "LOAD_XSOLLA"),
        ("zn", "UPDATE_ZONE")
    ]
}

} // verus!
