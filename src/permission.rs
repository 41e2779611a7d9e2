//! The closed vocabulary of platform permissions, and the normalisation of
//! the permission strings that a manifest requests.
use crate::text::{lemma_lex_irreflexive, lemma_lex_lt_at, lemma_lex_transitive, lex_lt, str_eq};
use vstd::prelude::*;

verus! {

/// How many platform permissions the vocabulary holds.
pub const PERMISSION_COUNT: usize = 173;

/// A platform permission, named by the part after `android.permission.`.
#[allow(non_camel_case_types)]
#[derive(Clone, Copy, Debug, PartialEq, Eq, Structural)]
pub enum Permission {
    ACCEPT_HANDOVER,
    ACCESS_BACKGROUND_LOCATION,
    ACCESS_CHECKIN_PROPERTIES,
    ACCESS_COARSE_LOCATION,
    ACCESS_FINE_LOCATION,
    ACCESS_LOCATION_EXTRA_COMMANDS,
    ACCESS_MEDIA_LOCATION,
    ACCESS_NETWORK_STATE,
    ACCESS_NOTIFICATION_POLICY,
    ACCESS_WIFI_STATE,
    ACTIVITY_RECOGNITION,
    ADD_VOICEMAIL,
    ANSWER_PHONE_CALLS,
    BATTERY_STATS,
    BIND_ACCESSIBILITY_SERVICE,
    BIND_APPWIDGET,
    BIND_AUTOFILL_SERVICE,
    BIND_CALL_REDIRECTION_SERVICE,
    BIND_CARRIER_MESSAGING_CLIENT_SERVICE,
    BIND_CARRIER_MESSAGING_SERVICE,
    BIND_CARRIER_SERVICES,
    BIND_CHOOSER_TARGET_SERVICE,
    BIND_COMPANION_DEVICE_SERVICE,
    BIND_CONDITION_PROVIDER_SERVICE,
    BIND_CONTROLS,
    BIND_DEVICE_ADMIN,
    BIND_DREAM_SERVICE,
    BIND_INCALL_SERVICE,
    BIND_INPUT_METHOD,
    BIND_MIDI_DEVICE_SERVICE,
    BIND_NFC_SERVICE,
    BIND_NOTIFICATION_LISTENER_SERVICE,
    BIND_PRINT_SERVICE,
    BIND_QUICK_ACCESS_WALLET_SERVICE,
    BIND_QUICK_SETTINGS_TILE,
    BIND_REMOTEVIEWS,
    BIND_SCREENING_SERVICE,
    BIND_TELECOM_CONNECTION_SERVICE,
    BIND_TEXT_SERVICE,
    BIND_TV_INPUT,
    BIND_VISUAL_VOICEMAIL_SERVICE,
    BIND_VOICE_INTERACTION,
    BIND_VPN_SERVICE,
    BIND_VR_LISTENER_SERVICE,
    BIND_WALLPAPER,
    BLUETOOTH,
    BLUETOOTH_ADMIN,
    BLUETOOTH_PRIVILEGED,
    BODY_SENSORS,
    BROADCAST_PACKAGE_REMOVED,
    BROADCAST_SMS,
    BROADCAST_STICKY,
    BROADCAST_WAP_PUSH,
    CALL_COMPANION_APP,
    CALL_PHONE,
    CALL_PRIVILEGED,
    CAMERA,
    CAPTURE_AUDIO_OUTPUT,
    CHANGE_COMPONENT_ENABLED_STATE,
    CHANGE_CONFIGURATION,
    CHANGE_NETWORK_STATE,
    CHANGE_WIFI_MULTICAST_STATE,
    CHANGE_WIFI_STATE,
    CLEAR_APP_CACHE,
    CONTROL_LOCATION_UPDATES,
    DELETE_CACHE_FILES,
    DELETE_PACKAGES,
    DIAGNOSTIC,
    DISABLE_KEYGUARD,
    DUMP,
    EXPAND_STATUS_BAR,
    FACTORY_TEST,
    FOREGROUND_SERVICE,
    GET_ACCOUNTS,
    GET_ACCOUNTS_PRIVILEGED,
    GET_PACKAGE_SIZE,
    GET_TASKS,
    GLOBAL_SEARCH,
    HIDE_OVERLAY_WINDOWS,
    HIGH_SAMPLING_RATE_SENSORS,
    INSTALL_LOCATION_PROVIDER,
    INSTALL_PACKAGES,
    INSTALL_SHORTCUT,
    INSTANT_APP_FOREGROUND_SERVICE,
    INTERACT_ACROSS_PROFILES,
    INTERNET,
    KILL_BACKGROUND_PROCESSES,
    LOADER_USAGE_STATS,
    LOCATION_HARDWARE,
    MANAGE_DOCUMENTS,
    MANAGE_EXTERNAL_STORAGE,
    MANAGE_ONGOING_CALLS,
    MANAGE_OWN_CALLS,
    MASTER_CLEAR,
    MEDIA_CONTENT_CONTROL,
    MODIFY_AUDIO_SETTINGS,
    MODIFY_PHONE_STATE,
    MOUNT_FORMAT_FILESYSTEMS,
    MOUNT_UNMOUNT_FILESYSTEMS,
    NFC,
    NFC_PREFERRED_PAYMENT_INFO,
    NFC_TRANSACTION_EVENT,
    PACKAGE_USAGE_STATS,
    PERSISTENT_ACTIVITY,
    PROCESS_OUTGOING_CALLS,
    QUERY_ALL_PACKAGES,
    READ_CALENDAR,
    READ_CALL_LOG,
    READ_CONTACTS,
    READ_EXTERNAL_STORAGE,
    READ_INPUT_STATE,
    READ_LOGS,
    READ_PHONE_NUMBERS,
    READ_PHONE_STATE,
    READ_PRECISE_PHONE_STATE,
    READ_SMS,
    READ_SYNC_SETTINGS,
    READ_SYNC_STATS,
    READ_VOICEMAIL,
    REBOOT,
    RECEIVE_BOOT_COMPLETED,
    RECEIVE_MMS,
    RECEIVE_SMS,
    RECEIVE_WAP_PUSH,
    RECORD_AUDIO,
    REORDER_TASKS,
    REQUEST_COMPANION_PROFILE_WATCH,
    REQUEST_COMPANION_RUN_IN_BACKGROUND,
    REQUEST_COMPANION_USE_DATA_IN_BACKGROUND,
    REQUEST_DELETE_PACKAGES,
    REQUEST_IGNORE_BATTERY_OPTIMIZATIONS,
    REQUEST_INSTALL_PACKAGES,
    REQUEST_OBSERVE_COMPANION_DEVICE_PRESENCE,
    REQUEST_PASSWORD_COMPLEXITY,
    RESTART_PACKAGES,
    SCHEDULE_EXACT_ALARM,
    SEND_RESPOND_VIA_MESSAGE,
    SEND_SMS,
    SET_ALARM,
    SET_ALWAYS_FINISH,
    SET_ANIMATION_SCALE,
    SET_DEBUG_APP,
    SET_PREFERRED_APPLICATIONS,
    SET_PROCESS_LIMIT,
    SET_TIME,
    SET_TIME_ZONE,
    SET_WALLPAPER,
    SET_WALLPAPER_HINTS,
    SIGNAL_PERSISTENT_PROCESSES,
    SMS_FINANCIAL_TRANSACTIONS,
    START_VIEW_PERMISSION_USAGE,
    STATUS_BAR,
    SYSTEM_ALERT_WINDOW,
    TRANSMIT_IR,
    UNINSTALL_SHORTCUT,
    UPDATE_DEVICE_STATS,
    USE_BIOMETRIC,
    USE_FINGERPRINT,
    USE_FULL_SCREEN_INTENT,
    USE_ICC_AUTH_WITH_DEVICE_IDENTIFIER,
    USE_SIP,
    VIBRATE,
    WAKE_LOCK,
    WRITE_APN_SETTINGS,
    WRITE_CALENDAR,
    WRITE_CALL_LOG,
    WRITE_CONTACTS,
    WRITE_EXTERNAL_STORAGE,
    WRITE_GSERVICES,
    WRITE_SECURE_SETTINGS,
    WRITE_SETTINGS,
    WRITE_SYNC_SETTINGS,
    WRITE_VOICEMAIL,
}

/// The prefix that every platform permission string carries.
pub open spec fn platform_prefix() -> Seq<char> {
    "android.permission."@
}

/// The permission at a position of the vocabulary's fixed listing.
#[verifier::opaque]
pub open spec fn spec_nth(i: usize) -> Option<Permission> {
    match i {
            0 => Some(Permission::ACCEPT_HANDOVER),
            1 => Some(Permission::ACCESS_BACKGROUND_LOCATION),
            2 => Some(Permission::ACCESS_CHECKIN_PROPERTIES),
            3 => Some(Permission::ACCESS_COARSE_LOCATION),
            4 => Some(Permission::ACCESS_FINE_LOCATION),
            5 => Some(Permission::ACCESS_LOCATION_EXTRA_COMMANDS),
            6 => Some(Permission::ACCESS_MEDIA_LOCATION),
            7 => Some(Permission::ACCESS_NETWORK_STATE),
            8 => Some(Permission::ACCESS_NOTIFICATION_POLICY),
            9 => Some(Permission::ACCESS_WIFI_STATE),
            10 => Some(Permission::ACTIVITY_RECOGNITION),
            11 => Some(Permission::ADD_VOICEMAIL),
            12 => Some(Permission::ANSWER_PHONE_CALLS),
            13 => Some(Permission::BATTERY_STATS),
            14 => Some(Permission::BIND_ACCESSIBILITY_SERVICE),
            15 => Some(Permission::BIND_APPWIDGET),
            16 => Some(Permission::BIND_AUTOFILL_SERVICE),
            17 => Some(Permission::BIND_CALL_REDIRECTION_SERVICE),
            18 => Some(Permission::BIND_CARRIER_MESSAGING_CLIENT_SERVICE),
            19 => Some(Permission::BIND_CARRIER_MESSAGING_SERVICE),
            20 => Some(Permission::BIND_CARRIER_SERVICES),
            21 => Some(Permission::BIND_CHOOSER_TARGET_SERVICE),
            22 => Some(Permission::BIND_COMPANION_DEVICE_SERVICE),
            23 => Some(Permission::BIND_CONDITION_PROVIDER_SERVICE),
            24 => Some(Permission::BIND_CONTROLS),
            25 => Some(Permission::BIND_DEVICE_ADMIN),
            26 => Some(Permission::BIND_DREAM_SERVICE),
            27 => Some(Permission::BIND_INCALL_SERVICE),
            28 => Some(Permission::BIND_INPUT_METHOD),
            29 => Some(Permission::BIND_MIDI_DEVICE_SERVICE),
            30 => Some(Permission::BIND_NFC_SERVICE),
            31 => Some(Permission::BIND_NOTIFICATION_LISTENER_SERVICE),
            32 => Some(Permission::BIND_PRINT_SERVICE),
            33 => Some(Permission::BIND_QUICK_ACCESS_WALLET_SERVICE),
            34 => Some(Permission::BIND_QUICK_SETTINGS_TILE),
            35 => Some(Permission::BIND_REMOTEVIEWS),
            36 => Some(Permission::BIND_SCREENING_SERVICE),
            37 => Some(Permission::BIND_TELECOM_CONNECTION_SERVICE),
            38 => Some(Permission::BIND_TEXT_SERVICE),
            39 => Some(Permission::BIND_TV_INPUT),
            40 => Some(Permission::BIND_VISUAL_VOICEMAIL_SERVICE),
            41 => Some(Permission::BIND_VOICE_INTERACTION),
            42 => Some(Permission::BIND_VPN_SERVICE),
            43 => Some(Permission::BIND_VR_LISTENER_SERVICE),
            44 => Some(Permission::BIND_WALLPAPER),
            45 => Some(Permission::BLUETOOTH),
            46 => Some(Permission::BLUETOOTH_ADMIN),
            47 => Some(Permission::BLUETOOTH_PRIVILEGED),
            48 => Some(Permission::BODY_SENSORS),
            49 => Some(Permission::BROADCAST_PACKAGE_REMOVED),
            50 => Some(Permission::BROADCAST_SMS),
            51 => Some(Permission::BROADCAST_STICKY),
            52 => Some(Permission::BROADCAST_WAP_PUSH),
            53 => Some(Permission::CALL_COMPANION_APP),
            54 => Some(Permission::CALL_PHONE),
            55 => Some(Permission::CALL_PRIVILEGED),
            56 => Some(Permission::CAMERA),
            57 => Some(Permission::CAPTURE_AUDIO_OUTPUT),
            58 => Some(Permission::CHANGE_COMPONENT_ENABLED_STATE),
            59 => Some(Permission::CHANGE_CONFIGURATION),
            60 => Some(Permission::CHANGE_NETWORK_STATE),
            61 => Some(Permission::CHANGE_WIFI_MULTICAST_STATE),
            62 => Some(Permission::CHANGE_WIFI_STATE),
            63 => Some(Permission::CLEAR_APP_CACHE),
            64 => Some(Permission::CONTROL_LOCATION_UPDATES),
            65 => Some(Permission::DELETE_CACHE_FILES),
            66 => Some(Permission::DELETE_PACKAGES),
            67 => Some(Permission::DIAGNOSTIC),
            68 => Some(Permission::DISABLE_KEYGUARD),
            69 => Some(Permission::DUMP),
            70 => Some(Permission::EXPAND_STATUS_BAR),
            71 => Some(Permission::FACTORY_TEST),
            72 => Some(Permission::FOREGROUND_SERVICE),
            73 => Some(Permission::GET_ACCOUNTS),
            74 => Some(Permission::GET_ACCOUNTS_PRIVILEGED),
            75 => Some(Permission::GET_PACKAGE_SIZE),
            76 => Some(Permission::GET_TASKS),
            77 => Some(Permission::GLOBAL_SEARCH),
            78 => Some(Permission::HIDE_OVERLAY_WINDOWS),
            79 => Some(Permission::HIGH_SAMPLING_RATE_SENSORS),
            80 => Some(Permission::INSTALL_LOCATION_PROVIDER),
            81 => Some(Permission::INSTALL_PACKAGES),
            82 => Some(Permission::INSTALL_SHORTCUT),
            83 => Some(Permission::INSTANT_APP_FOREGROUND_SERVICE),
            84 => Some(Permission::INTERACT_ACROSS_PROFILES),
            85 => Some(Permission::INTERNET),
            86 => Some(Permission::KILL_BACKGROUND_PROCESSES),
            87 => Some(Permission::LOADER_USAGE_STATS),
            88 => Some(Permission::LOCATION_HARDWARE),
            89 => Some(Permission::MANAGE_DOCUMENTS),
            90 => Some(Permission::MANAGE_EXTERNAL_STORAGE),
            91 => Some(Permission::MANAGE_ONGOING_CALLS),
            92 => Some(Permission::MANAGE_OWN_CALLS),
            93 => Some(Permission::MASTER_CLEAR),
            94 => Some(Permission::MEDIA_CONTENT_CONTROL),
            95 => Some(Permission::MODIFY_AUDIO_SETTINGS),
            96 => Some(Permission::MODIFY_PHONE_STATE),
            97 => Some(Permission::MOUNT_FORMAT_FILESYSTEMS),
            98 => Some(Permission::MOUNT_UNMOUNT_FILESYSTEMS),
            99 => Some(Permission::NFC),
            100 => Some(Permission::NFC_PREFERRED_PAYMENT_INFO),
            101 => Some(Permission::NFC_TRANSACTION_EVENT),
            102 => Some(Permission::PACKAGE_USAGE_STATS),
            103 => Some(Permission::PERSISTENT_ACTIVITY),
            104 => Some(Permission::PROCESS_OUTGOING_CALLS),
            105 => Some(Permission::QUERY_ALL_PACKAGES),
            106 => Some(Permission::READ_CALENDAR),
            107 => Some(Permission::READ_CALL_LOG),
            108 => Some(Permission::READ_CONTACTS),
            109 => Some(Permission::READ_EXTERNAL_STORAGE),
            110 => Some(Permission::READ_INPUT_STATE),
            111 => Some(Permission::READ_LOGS),
            112 => Some(Permission::READ_PHONE_NUMBERS),
            113 => Some(Permission::READ_PHONE_STATE),
            114 => Some(Permission::READ_PRECISE_PHONE_STATE),
            115 => Some(Permission::READ_SMS),
            116 => Some(Permission::READ_SYNC_SETTINGS),
            117 => Some(Permission::READ_SYNC_STATS),
            118 => Some(Permission::READ_VOICEMAIL),
            119 => Some(Permission::REBOOT),
            120 => Some(Permission::RECEIVE_BOOT_COMPLETED),
            121 => Some(Permission::RECEIVE_MMS),
            122 => Some(Permission::RECEIVE_SMS),
            123 => Some(Permission::RECEIVE_WAP_PUSH),
            124 => Some(Permission::RECORD_AUDIO),
            125 => Some(Permission::REORDER_TASKS),
            126 => Some(Permission::REQUEST_COMPANION_PROFILE_WATCH),
            127 => Some(Permission::REQUEST_COMPANION_RUN_IN_BACKGROUND),
            128 => Some(Permission::REQUEST_COMPANION_USE_DATA_IN_BACKGROUND),
            129 => Some(Permission::REQUEST_DELETE_PACKAGES),
            130 => Some(Permission::REQUEST_IGNORE_BATTERY_OPTIMIZATIONS),
            131 => Some(Permission::REQUEST_INSTALL_PACKAGES),
            132 => Some(Permission::REQUEST_OBSERVE_COMPANION_DEVICE_PRESENCE),
            133 => Some(Permission::REQUEST_PASSWORD_COMPLEXITY),
            134 => Some(Permission::RESTART_PACKAGES),
            135 => Some(Permission::SCHEDULE_EXACT_ALARM),
            136 => Some(Permission::SEND_RESPOND_VIA_MESSAGE),
            137 => Some(Permission::SEND_SMS),
            138 => Some(Permission::SET_ALARM),
            139 => Some(Permission::SET_ALWAYS_FINISH),
            140 => Some(Permission::SET_ANIMATION_SCALE),
            141 => Some(Permission::SET_DEBUG_APP),
            142 => Some(Permission::SET_PREFERRED_APPLICATIONS),
            143 => Some(Permission::SET_PROCESS_LIMIT),
            144 => Some(Permission::SET_TIME),
            145 => Some(Permission::SET_TIME_ZONE),
            146 => Some(Permission::SET_WALLPAPER),
            147 => Some(Permission::SET_WALLPAPER_HINTS),
            148 => Some(Permission::SIGNAL_PERSISTENT_PROCESSES),
            149 => Some(Permission::SMS_FINANCIAL_TRANSACTIONS),
            150 => Some(Permission::START_VIEW_PERMISSION_USAGE),
            151 => Some(Permission::STATUS_BAR),
            152 => Some(Permission::SYSTEM_ALERT_WINDOW),
            153 => Some(Permission::TRANSMIT_IR),
            154 => Some(Permission::UNINSTALL_SHORTCUT),
            155 => Some(Permission::UPDATE_DEVICE_STATS),
            156 => Some(Permission::USE_BIOMETRIC),
            157 => Some(Permission::USE_FINGERPRINT),
            158 => Some(Permission::USE_FULL_SCREEN_INTENT),
            159 => Some(Permission::USE_ICC_AUTH_WITH_DEVICE_IDENTIFIER),
            160 => Some(Permission::USE_SIP),
            161 => Some(Permission::VIBRATE),
            162 => Some(Permission::WAKE_LOCK),
            163 => Some(Permission::WRITE_APN_SETTINGS),
            164 => Some(Permission::WRITE_CALENDAR),
            165 => Some(Permission::WRITE_CALL_LOG),
            166 => Some(Permission::WRITE_CONTACTS),
            167 => Some(Permission::WRITE_EXTERNAL_STORAGE),
            168 => Some(Permission::WRITE_GSERVICES),
            169 => Some(Permission::WRITE_SECURE_SETTINGS),
            170 => Some(Permission::WRITE_SETTINGS),
            171 => Some(Permission::WRITE_SYNC_SETTINGS),
            172 => Some(Permission::WRITE_VOICEMAIL),
        _ => None,
    }
}

/// The name of the permission at a position of the listing.
spec fn name_at(i: usize) -> Seq<char> {
    spec_nth(i).unwrap().spec_name()
}

proof fn lemma_adjacent_0(i: usize)
    requires
        0 <= i < 12,
    ensures
        lex_lt(name_at(i), name_at((i + 1) as usize)),
{
    reveal(spec_nth);
    reveal(Permission::spec_name);
        if i == 0 {
            reveal_strlit("ACCEPT_HANDOVER");
            reveal_strlit("ACCESS_BACKGROUND_LOCATION");
            assert("ACCEPT_HANDOVER"@.subrange(0, 4) =~= "ACCESS_BACKGROUND_LOCATION"@.subrange(0, 4));
            lemma_lex_lt_at("ACCEPT_HANDOVER"@, "ACCESS_BACKGROUND_LOCATION"@, 4);
        }
        if i == 1 {
            reveal_strlit("ACCESS_BACKGROUND_LOCATION");
            reveal_strlit("ACCESS_CHECKIN_PROPERTIES");
            assert("ACCESS_BACKGROUND_LOCATION"@.subrange(0, 7) =~= "ACCESS_CHECKIN_PROPERTIES"@.subrange(0, 7));
            lemma_lex_lt_at("ACCESS_BACKGROUND_LOCATION"@, "ACCESS_CHECKIN_PROPERTIES"@, 7);
        }
        if i == 2 {
            reveal_strlit("ACCESS_CHECKIN_PROPERTIES");
            reveal_strlit("ACCESS_COARSE_LOCATION");
            assert("ACCESS_CHECKIN_PROPERTIES"@.subrange(0, 8) =~= "ACCESS_COARSE_LOCATION"@.subrange(0, 8));
            lemma_lex_lt_at("ACCESS_CHECKIN_PROPERTIES"@, "ACCESS_COARSE_LOCATION"@, 8);
        }
        if i == 3 {
            reveal_strlit("ACCESS_COARSE_LOCATION");
            reveal_strlit("ACCESS_FINE_LOCATION");
            assert("ACCESS_COARSE_LOCATION"@.subrange(0, 7) =~= "ACCESS_FINE_LOCATION"@.subrange(0, 7));
            lemma_lex_lt_at("ACCESS_COARSE_LOCATION"@, "ACCESS_FINE_LOCATION"@, 7);
        }
        if i == 4 {
            reveal_strlit("ACCESS_FINE_LOCATION");
            reveal_strlit("ACCESS_LOCATION_EXTRA_COMMANDS");
            assert("ACCESS_FINE_LOCATION"@.subrange(0, 7) =~= "ACCESS_LOCATION_EXTRA_COMMANDS"@.subrange(0, 7));
            lemma_lex_lt_at("ACCESS_FINE_LOCATION"@, "ACCESS_LOCATION_EXTRA_COMMANDS"@, 7);
        }
        if i == 5 {
            reveal_strlit("ACCESS_LOCATION_EXTRA_COMMANDS");
            reveal_strlit("ACCESS_MEDIA_LOCATION");
            assert("ACCESS_LOCATION_EXTRA_COMMANDS"@.subrange(0, 7) =~= "ACCESS_MEDIA_LOCATION"@.subrange(0, 7));
            lemma_lex_lt_at("ACCESS_LOCATION_EXTRA_COMMANDS"@, "ACCESS_MEDIA_LOCATION"@, 7);
        }
        if i == 6 {
            reveal_strlit("ACCESS_MEDIA_LOCATION");
            reveal_strlit("ACCESS_NETWORK_STATE");
            assert("ACCESS_MEDIA_LOCATION"@.subrange(0, 7) =~= "ACCESS_NETWORK_STATE"@.subrange(0, 7));
            lemma_lex_lt_at("ACCESS_MEDIA_LOCATION"@, "ACCESS_NETWORK_STATE"@, 7);
        }
        if i == 7 {
            reveal_strlit("ACCESS_NETWORK_STATE");
            reveal_strlit("ACCESS_NOTIFICATION_POLICY");
            assert("ACCESS_NETWORK_STATE"@.subrange(0, 8) =~= "ACCESS_NOTIFICATION_POLICY"@.subrange(0, 8));
            lemma_lex_lt_at("ACCESS_NETWORK_STATE"@, "ACCESS_NOTIFICATION_POLICY"@, 8);
        }
        if i == 8 {
            reveal_strlit("ACCESS_NOTIFICATION_POLICY");
            reveal_strlit("ACCESS_WIFI_STATE");
            assert("ACCESS_NOTIFICATION_POLICY"@.subrange(0, 7) =~= "ACCESS_WIFI_STATE"@.subrange(0, 7));
            lemma_lex_lt_at("ACCESS_NOTIFICATION_POLICY"@, "ACCESS_WIFI_STATE"@, 7);
        }
        if i == 9 {
            reveal_strlit("ACCESS_WIFI_STATE");
            reveal_strlit("ACTIVITY_RECOGNITION");
            assert("ACCESS_WIFI_STATE"@.subrange(0, 2) =~= "ACTIVITY_RECOGNITION"@.subrange(0, 2));
            lemma_lex_lt_at("ACCESS_WIFI_STATE"@, "ACTIVITY_RECOGNITION"@, 2);
        }
        if i == 10 {
            reveal_strlit("ACTIVITY_RECOGNITION");
            reveal_strlit("ADD_VOICEMAIL");
            assert("ACTIVITY_RECOGNITION"@.subrange(0, 1) =~= "ADD_VOICEMAIL"@.subrange(0, 1));
            lemma_lex_lt_at("ACTIVITY_RECOGNITION"@, "ADD_VOICEMAIL"@, 1);
        }
        if i == 11 {
            reveal_strlit("ADD_VOICEMAIL");
            reveal_strlit("ANSWER_PHONE_CALLS");
            assert("ADD_VOICEMAIL"@.subrange(0, 1) =~= "ANSWER_PHONE_CALLS"@.subrange(0, 1));
            lemma_lex_lt_at("ADD_VOICEMAIL"@, "ANSWER_PHONE_CALLS"@, 1);
        }
}

proof fn lemma_adjacent_12(i: usize)
    requires
        12 <= i < 24,
    ensures
        lex_lt(name_at(i), name_at((i + 1) as usize)),
{
    reveal(spec_nth);
    reveal(Permission::spec_name);
        if i == 12 {
            reveal_strlit("ANSWER_PHONE_CALLS");
            reveal_strlit("BATTERY_STATS");
            assert("ANSWER_PHONE_CALLS"@.subrange(0, 0) =~= "BATTERY_STATS"@.subrange(0, 0));
            lemma_lex_lt_at("ANSWER_PHONE_CALLS"@, "BATTERY_STATS"@, 0);
        }
        if i == 13 {
            reveal_strlit("BATTERY_STATS");
            reveal_strlit("BIND_ACCESSIBILITY_SERVICE");
            assert("BATTERY_STATS"@.subrange(0, 1) =~= "BIND_ACCESSIBILITY_SERVICE"@.subrange(0, 1));
            lemma_lex_lt_at("BATTERY_STATS"@, "BIND_ACCESSIBILITY_SERVICE"@, 1);
        }
        if i == 14 {
            reveal_strlit("BIND_ACCESSIBILITY_SERVICE");
            reveal_strlit("BIND_APPWIDGET");
            assert("BIND_ACCESSIBILITY_SERVICE"@.subrange(0, 6) =~= "BIND_APPWIDGET"@.subrange(0, 6));
            lemma_lex_lt_at("BIND_ACCESSIBILITY_SERVICE"@, "BIND_APPWIDGET"@, 6);
        }
        if i == 15 {
            reveal_strlit("BIND_APPWIDGET");
            reveal_strlit("BIND_AUTOFILL_SERVICE");
            assert("BIND_APPWIDGET"@.subrange(0, 6) =~= "BIND_AUTOFILL_SERVICE"@.subrange(0, 6));
            lemma_lex_lt_at("BIND_APPWIDGET"@, "BIND_AUTOFILL_SERVICE"@, 6);
        }
        if i == 16 {
            reveal_strlit("BIND_AUTOFILL_SERVICE");
            reveal_strlit("BIND_CALL_REDIRECTION_SERVICE");
            assert("BIND_AUTOFILL_SERVICE"@.subrange(0, 5) =~= "BIND_CALL_REDIRECTION_SERVICE"@.subrange(0, 5));
            lemma_lex_lt_at("BIND_AUTOFILL_SERVICE"@, "BIND_CALL_REDIRECTION_SERVICE"@, 5);
        }
        if i == 17 {
            reveal_strlit("BIND_CALL_REDIRECTION_SERVICE");
            reveal_strlit("BIND_CARRIER_MESSAGING_CLIENT_SERVICE");
            assert("BIND_CALL_REDIRECTION_SERVICE"@.subrange(0, 7) =~= "BIND_CARRIER_MESSAGING_CLIENT_SERVICE"@.subrange(0, 7));
            lemma_lex_lt_at("BIND_CALL_REDIRECTION_SERVICE"@, "BIND_CARRIER_MESSAGING_CLIENT_SERVICE"@, 7);
        }
        if i == 18 {
            reveal_strlit("BIND_CARRIER_MESSAGING_CLIENT_SERVICE");
            reveal_strlit("BIND_CARRIER_MESSAGING_SERVICE");
            assert("BIND_CARRIER_MESSAGING_CLIENT_SERVICE"@.subrange(0, 23) =~= "BIND_CARRIER_MESSAGING_SERVICE"@.subrange(0, 23));
            lemma_lex_lt_at("BIND_CARRIER_MESSAGING_CLIENT_SERVICE"@, "BIND_CARRIER_MESSAGING_SERVICE"@, 23);
        }
        if i == 19 {
            reveal_strlit("BIND_CARRIER_MESSAGING_SERVICE");
            reveal_strlit("BIND_CARRIER_SERVICES");
            assert("BIND_CARRIER_MESSAGING_SERVICE"@.subrange(0, 13) =~= "BIND_CARRIER_SERVICES"@.subrange(0, 13));
            lemma_lex_lt_at("BIND_CARRIER_MESSAGING_SERVICE"@, "BIND_CARRIER_SERVICES"@, 13);
        }
        if i == 20 {
            reveal_strlit("BIND_CARRIER_SERVICES");
            reveal_strlit("BIND_CHOOSER_TARGET_SERVICE");
            assert("BIND_CARRIER_SERVICES"@.subrange(0, 6) =~= "BIND_CHOOSER_TARGET_SERVICE"@.subrange(0, 6));
            lemma_lex_lt_at("BIND_CARRIER_SERVICES"@, "BIND_CHOOSER_TARGET_SERVICE"@, 6);
        }
        if i == 21 {
            reveal_strlit("BIND_CHOOSER_TARGET_SERVICE");
            reveal_strlit("BIND_COMPANION_DEVICE_SERVICE");
            assert("BIND_CHOOSER_TARGET_SERVICE"@.subrange(0, 6) =~= "BIND_COMPANION_DEVICE_SERVICE"@.subrange(0, 6));
            lemma_lex_lt_at("BIND_CHOOSER_TARGET_SERVICE"@, "BIND_COMPANION_DEVICE_SERVICE"@, 6);
        }
        if i == 22 {
            reveal_strlit("BIND_COMPANION_DEVICE_SERVICE");
            reveal_strlit("BIND_CONDITION_PROVIDER_SERVICE");
            assert("BIND_COMPANION_DEVICE_SERVICE"@.subrange(0, 7) =~= "BIND_CONDITION_PROVIDER_SERVICE"@.subrange(0, 7));
            lemma_lex_lt_at("BIND_COMPANION_DEVICE_SERVICE"@, "BIND_CONDITION_PROVIDER_SERVICE"@, 7);
        }
        if i == 23 {
            reveal_strlit("BIND_CONDITION_PROVIDER_SERVICE");
            reveal_strlit("BIND_CONTROLS");
            assert("BIND_CONDITION_PROVIDER_SERVICE"@.subrange(0, 8) =~= "BIND_CONTROLS"@.subrange(0, 8));
            lemma_lex_lt_at("BIND_CONDITION_PROVIDER_SERVICE"@, "BIND_CONTROLS"@, 8);
        }
}

proof fn lemma_adjacent_24(i: usize)
    requires
        24 <= i < 36,
    ensures
        lex_lt(name_at(i), name_at((i + 1) as usize)),
{
    reveal(spec_nth);
    reveal(Permission::spec_name);
        if i == 24 {
            reveal_strlit("BIND_CONTROLS");
            reveal_strlit("BIND_DEVICE_ADMIN");
            assert("BIND_CONTROLS"@.subrange(0, 5) =~= "BIND_DEVICE_ADMIN"@.subrange(0, 5));
            lemma_lex_lt_at("BIND_CONTROLS"@, "BIND_DEVICE_ADMIN"@, 5);
        }
        if i == 25 {
            reveal_strlit("BIND_DEVICE_ADMIN");
            reveal_strlit("BIND_DREAM_SERVICE");
            assert("BIND_DEVICE_ADMIN"@.subrange(0, 6) =~= "BIND_DREAM_SERVICE"@.subrange(0, 6));
            lemma_lex_lt_at("BIND_DEVICE_ADMIN"@, "BIND_DREAM_SERVICE"@, 6);
        }
        if i == 26 {
            reveal_strlit("BIND_DREAM_SERVICE");
            reveal_strlit("BIND_INCALL_SERVICE");
            assert("BIND_DREAM_SERVICE"@.subrange(0, 5) =~= "BIND_INCALL_SERVICE"@.subrange(0, 5));
            lemma_lex_lt_at("BIND_DREAM_SERVICE"@, "BIND_INCALL_SERVICE"@, 5);
        }
        if i == 27 {
            reveal_strlit("BIND_INCALL_SERVICE");
            reveal_strlit("BIND_INPUT_METHOD");
            assert("BIND_INCALL_SERVICE"@.subrange(0, 7) =~= "BIND_INPUT_METHOD"@.subrange(0, 7));
            lemma_lex_lt_at("BIND_INCALL_SERVICE"@, "BIND_INPUT_METHOD"@, 7);
        }
        if i == 28 {
            reveal_strlit("BIND_INPUT_METHOD");
            reveal_strlit("BIND_MIDI_DEVICE_SERVICE");
            assert("BIND_INPUT_METHOD"@.subrange(0, 5) =~= "BIND_MIDI_DEVICE_SERVICE"@.subrange(0, 5));
            lemma_lex_lt_at("BIND_INPUT_METHOD"@, "BIND_MIDI_DEVICE_SERVICE"@, 5);
        }
        if i == 29 {
            reveal_strlit("BIND_MIDI_DEVICE_SERVICE");
            reveal_strlit("BIND_NFC_SERVICE");
            assert("BIND_MIDI_DEVICE_SERVICE"@.subrange(0, 5) =~= "BIND_NFC_SERVICE"@.subrange(0, 5));
            lemma_lex_lt_at("BIND_MIDI_DEVICE_SERVICE"@, "BIND_NFC_SERVICE"@, 5);
        }
        if i == 30 {
            reveal_strlit("BIND_NFC_SERVICE");
            reveal_strlit("BIND_NOTIFICATION_LISTENER_SERVICE");
            assert("BIND_NFC_SERVICE"@.subrange(0, 6) =~= "BIND_NOTIFICATION_LISTENER_SERVICE"@.subrange(0, 6));
            lemma_lex_lt_at("BIND_NFC_SERVICE"@, "BIND_NOTIFICATION_LISTENER_SERVICE"@, 6);
        }
        if i == 31 {
            reveal_strlit("BIND_NOTIFICATION_LISTENER_SERVICE");
            reveal_strlit("BIND_PRINT_SERVICE");
            assert("BIND_NOTIFICATION_LISTENER_SERVICE"@.subrange(0, 5) =~= "BIND_PRINT_SERVICE"@.subrange(0, 5));
            lemma_lex_lt_at("BIND_NOTIFICATION_LISTENER_SERVICE"@, "BIND_PRINT_SERVICE"@, 5);
        }
        if i == 32 {
            reveal_strlit("BIND_PRINT_SERVICE");
            reveal_strlit("BIND_QUICK_ACCESS_WALLET_SERVICE");
            assert("BIND_PRINT_SERVICE"@.subrange(0, 5) =~= "BIND_QUICK_ACCESS_WALLET_SERVICE"@.subrange(0, 5));
            lemma_lex_lt_at("BIND_PRINT_SERVICE"@, "BIND_QUICK_ACCESS_WALLET_SERVICE"@, 5);
        }
        if i == 33 {
            reveal_strlit("BIND_QUICK_ACCESS_WALLET_SERVICE");
            reveal_strlit("BIND_QUICK_SETTINGS_TILE");
            assert("BIND_QUICK_ACCESS_WALLET_SERVICE"@.subrange(0, 11) =~= "BIND_QUICK_SETTINGS_TILE"@.subrange(0, 11));
            lemma_lex_lt_at("BIND_QUICK_ACCESS_WALLET_SERVICE"@, "BIND_QUICK_SETTINGS_TILE"@, 11);
        }
        if i == 34 {
            reveal_strlit("BIND_QUICK_SETTINGS_TILE");
            reveal_strlit("BIND_REMOTEVIEWS");
            assert("BIND_QUICK_SETTINGS_TILE"@.subrange(0, 5) =~= "BIND_REMOTEVIEWS"@.subrange(0, 5));
            lemma_lex_lt_at("BIND_QUICK_SETTINGS_TILE"@, "BIND_REMOTEVIEWS"@, 5);
        }
        if i == 35 {
            reveal_strlit("BIND_REMOTEVIEWS");
            reveal_strlit("BIND_SCREENING_SERVICE");
            assert("BIND_REMOTEVIEWS"@.subrange(0, 5) =~= "BIND_SCREENING_SERVICE"@.subrange(0, 5));
            lemma_lex_lt_at("BIND_REMOTEVIEWS"@, "BIND_SCREENING_SERVICE"@, 5);
        }
}

proof fn lemma_adjacent_36(i: usize)
    requires
        36 <= i < 48,
    ensures
        lex_lt(name_at(i), name_at((i + 1) as usize)),
{
    reveal(spec_nth);
    reveal(Permission::spec_name);
        if i == 36 {
            reveal_strlit("BIND_SCREENING_SERVICE");
            reveal_strlit("BIND_TELECOM_CONNECTION_SERVICE");
            assert("BIND_SCREENING_SERVICE"@.subrange(0, 5) =~= "BIND_TELECOM_CONNECTION_SERVICE"@.subrange(0, 5));
            lemma_lex_lt_at("BIND_SCREENING_SERVICE"@, "BIND_TELECOM_CONNECTION_SERVICE"@, 5);
        }
        if i == 37 {
            reveal_strlit("BIND_TELECOM_CONNECTION_SERVICE");
            reveal_strlit("BIND_TEXT_SERVICE");
            assert("BIND_TELECOM_CONNECTION_SERVICE"@.subrange(0, 7) =~= "BIND_TEXT_SERVICE"@.subrange(0, 7));
            lemma_lex_lt_at("BIND_TELECOM_CONNECTION_SERVICE"@, "BIND_TEXT_SERVICE"@, 7);
        }
        if i == 38 {
            reveal_strlit("BIND_TEXT_SERVICE");
            reveal_strlit("BIND_TV_INPUT");
            assert("BIND_TEXT_SERVICE"@.subrange(0, 6) =~= "BIND_TV_INPUT"@.subrange(0, 6));
            lemma_lex_lt_at("BIND_TEXT_SERVICE"@, "BIND_TV_INPUT"@, 6);
        }
        if i == 39 {
            reveal_strlit("BIND_TV_INPUT");
            reveal_strlit("BIND_VISUAL_VOICEMAIL_SERVICE");
            assert("BIND_TV_INPUT"@.subrange(0, 5) =~= "BIND_VISUAL_VOICEMAIL_SERVICE"@.subrange(0, 5));
            lemma_lex_lt_at("BIND_TV_INPUT"@, "BIND_VISUAL_VOICEMAIL_SERVICE"@, 5);
        }
        if i == 40 {
            reveal_strlit("BIND_VISUAL_VOICEMAIL_SERVICE");
            reveal_strlit("BIND_VOICE_INTERACTION");
            assert("BIND_VISUAL_VOICEMAIL_SERVICE"@.subrange(0, 6) =~= "BIND_VOICE_INTERACTION"@.subrange(0, 6));
            lemma_lex_lt_at("BIND_VISUAL_VOICEMAIL_SERVICE"@, "BIND_VOICE_INTERACTION"@, 6);
        }
        if i == 41 {
            reveal_strlit("BIND_VOICE_INTERACTION");
            reveal_strlit("BIND_VPN_SERVICE");
            assert("BIND_VOICE_INTERACTION"@.subrange(0, 6) =~= "BIND_VPN_SERVICE"@.subrange(0, 6));
            lemma_lex_lt_at("BIND_VOICE_INTERACTION"@, "BIND_VPN_SERVICE"@, 6);
        }
        if i == 42 {
            reveal_strlit("BIND_VPN_SERVICE");
            reveal_strlit("BIND_VR_LISTENER_SERVICE");
            assert("BIND_VPN_SERVICE"@.subrange(0, 6) =~= "BIND_VR_LISTENER_SERVICE"@.subrange(0, 6));
            lemma_lex_lt_at("BIND_VPN_SERVICE"@, "BIND_VR_LISTENER_SERVICE"@, 6);
        }
        if i == 43 {
            reveal_strlit("BIND_VR_LISTENER_SERVICE");
            reveal_strlit("BIND_WALLPAPER");
            assert("BIND_VR_LISTENER_SERVICE"@.subrange(0, 5) =~= "BIND_WALLPAPER"@.subrange(0, 5));
            lemma_lex_lt_at("BIND_VR_LISTENER_SERVICE"@, "BIND_WALLPAPER"@, 5);
        }
        if i == 44 {
            reveal_strlit("BIND_WALLPAPER");
            reveal_strlit("BLUETOOTH");
            assert("BIND_WALLPAPER"@.subrange(0, 1) =~= "BLUETOOTH"@.subrange(0, 1));
            lemma_lex_lt_at("BIND_WALLPAPER"@, "BLUETOOTH"@, 1);
        }
        if i == 45 {
            reveal_strlit("BLUETOOTH");
            reveal_strlit("BLUETOOTH_ADMIN");
            assert("BLUETOOTH"@.subrange(0, 9) =~= "BLUETOOTH_ADMIN"@.subrange(0, 9));
            lemma_lex_lt_at("BLUETOOTH"@, "BLUETOOTH_ADMIN"@, 9);
        }
        if i == 46 {
            reveal_strlit("BLUETOOTH_ADMIN");
            reveal_strlit("BLUETOOTH_PRIVILEGED");
            assert("BLUETOOTH_ADMIN"@.subrange(0, 10) =~= "BLUETOOTH_PRIVILEGED"@.subrange(0, 10));
            lemma_lex_lt_at("BLUETOOTH_ADMIN"@, "BLUETOOTH_PRIVILEGED"@, 10);
        }
        if i == 47 {
            reveal_strlit("BLUETOOTH_PRIVILEGED");
            reveal_strlit("BODY_SENSORS");
            assert("BLUETOOTH_PRIVILEGED"@.subrange(0, 1) =~= "BODY_SENSORS"@.subrange(0, 1));
            lemma_lex_lt_at("BLUETOOTH_PRIVILEGED"@, "BODY_SENSORS"@, 1);
        }
}

proof fn lemma_adjacent_48(i: usize)
    requires
        48 <= i < 60,
    ensures
        lex_lt(name_at(i), name_at((i + 1) as usize)),
{
    reveal(spec_nth);
    reveal(Permission::spec_name);
        if i == 48 {
            reveal_strlit("BODY_SENSORS");
            reveal_strlit("BROADCAST_PACKAGE_REMOVED");
            assert("BODY_SENSORS"@.subrange(0, 1) =~= "BROADCAST_PACKAGE_REMOVED"@.subrange(0, 1));
            lemma_lex_lt_at("BODY_SENSORS"@, "BROADCAST_PACKAGE_REMOVED"@, 1);
        }
        if i == 49 {
            reveal_strlit("BROADCAST_PACKAGE_REMOVED");
            reveal_strlit("BROADCAST_SMS");
            assert("BROADCAST_PACKAGE_REMOVED"@.subrange(0, 10) =~= "BROADCAST_SMS"@.subrange(0, 10));
            lemma_lex_lt_at("BROADCAST_PACKAGE_REMOVED"@, "BROADCAST_SMS"@, 10);
        }
        if i == 50 {
            reveal_strlit("BROADCAST_SMS");
            reveal_strlit("BROADCAST_STICKY");
            assert("BROADCAST_SMS"@.subrange(0, 11) =~= "BROADCAST_STICKY"@.subrange(0, 11));
            lemma_lex_lt_at("BROADCAST_SMS"@, "BROADCAST_STICKY"@, 11);
        }
        if i == 51 {
            reveal_strlit("BROADCAST_STICKY");
            reveal_strlit("BROADCAST_WAP_PUSH");
            assert("BROADCAST_STICKY"@.subrange(0, 10) =~= "BROADCAST_WAP_PUSH"@.subrange(0, 10));
            lemma_lex_lt_at("BROADCAST_STICKY"@, "BROADCAST_WAP_PUSH"@, 10);
        }
        if i == 52 {
            reveal_strlit("BROADCAST_WAP_PUSH");
            reveal_strlit("CALL_COMPANION_APP");
            assert("BROADCAST_WAP_PUSH"@.subrange(0, 0) =~= "CALL_COMPANION_APP"@.subrange(0, 0));
            lemma_lex_lt_at("BROADCAST_WAP_PUSH"@, "CALL_COMPANION_APP"@, 0);
        }
        if i == 53 {
            reveal_strlit("CALL_COMPANION_APP");
            reveal_strlit("CALL_PHONE");
            assert("CALL_COMPANION_APP"@.subrange(0, 5) =~= "CALL_PHONE"@.subrange(0, 5));
            lemma_lex_lt_at("CALL_COMPANION_APP"@, "CALL_PHONE"@, 5);
        }
        if i == 54 {
            reveal_strlit("CALL_PHONE");
            reveal_strlit("CALL_PRIVILEGED");
            assert("CALL_PHONE"@.subrange(0, 6) =~= "CALL_PRIVILEGED"@.subrange(0, 6));
            lemma_lex_lt_at("CALL_PHONE"@, "CALL_PRIVILEGED"@, 6);
        }
        if i == 55 {
            reveal_strlit("CALL_PRIVILEGED");
            reveal_strlit("CAMERA");
            assert("CALL_PRIVILEGED"@.subrange(0, 2) =~= "CAMERA"@.subrange(0, 2));
            lemma_lex_lt_at("CALL_PRIVILEGED"@, "CAMERA"@, 2);
        }
        if i == 56 {
            reveal_strlit("CAMERA");
            reveal_strlit("CAPTURE_AUDIO_OUTPUT");
            assert("CAMERA"@.subrange(0, 2) =~= "CAPTURE_AUDIO_OUTPUT"@.subrange(0, 2));
            lemma_lex_lt_at("CAMERA"@, "CAPTURE_AUDIO_OUTPUT"@, 2);
        }
        if i == 57 {
            reveal_strlit("CAPTURE_AUDIO_OUTPUT");
            reveal_strlit("CHANGE_COMPONENT_ENABLED_STATE");
            assert("CAPTURE_AUDIO_OUTPUT"@.subrange(0, 1) =~= "CHANGE_COMPONENT_ENABLED_STATE"@.subrange(0, 1));
            lemma_lex_lt_at("CAPTURE_AUDIO_OUTPUT"@, "CHANGE_COMPONENT_ENABLED_STATE"@, 1);
        }
        if i == 58 {
            reveal_strlit("CHANGE_COMPONENT_ENABLED_STATE");
            reveal_strlit("CHANGE_CONFIGURATION");
            assert("CHANGE_COMPONENT_ENABLED_STATE"@.subrange(0, 9) =~= "CHANGE_CONFIGURATION"@.subrange(0, 9));
            lemma_lex_lt_at("CHANGE_COMPONENT_ENABLED_STATE"@, "CHANGE_CONFIGURATION"@, 9);
        }
        if i == 59 {
            reveal_strlit("CHANGE_CONFIGURATION");
            reveal_strlit("CHANGE_NETWORK_STATE");
            assert("CHANGE_CONFIGURATION"@.subrange(0, 7) =~= "CHANGE_NETWORK_STATE"@.subrange(0, 7));
            lemma_lex_lt_at("CHANGE_CONFIGURATION"@, "CHANGE_NETWORK_STATE"@, 7);
        }
}

proof fn lemma_adjacent_60(i: usize)
    requires
        60 <= i < 72,
    ensures
        lex_lt(name_at(i), name_at((i + 1) as usize)),
{
    reveal(spec_nth);
    reveal(Permission::spec_name);
        if i == 60 {
            reveal_strlit("CHANGE_NETWORK_STATE");
            reveal_strlit("CHANGE_WIFI_MULTICAST_STATE");
            assert("CHANGE_NETWORK_STATE"@.subrange(0, 7) =~= "CHANGE_WIFI_MULTICAST_STATE"@.subrange(0, 7));
            lemma_lex_lt_at("CHANGE_NETWORK_STATE"@, "CHANGE_WIFI_MULTICAST_STATE"@, 7);
        }
        if i == 61 {
            reveal_strlit("CHANGE_WIFI_MULTICAST_STATE");
            reveal_strlit("CHANGE_WIFI_STATE");
            assert("CHANGE_WIFI_MULTICAST_STATE"@.subrange(0, 12) =~= "CHANGE_WIFI_STATE"@.subrange(0, 12));
            lemma_lex_lt_at("CHANGE_WIFI_MULTICAST_STATE"@, "CHANGE_WIFI_STATE"@, 12);
        }
        if i == 62 {
            reveal_strlit("CHANGE_WIFI_STATE");
            reveal_strlit("CLEAR_APP_CACHE");
            assert("CHANGE_WIFI_STATE"@.subrange(0, 1) =~= "CLEAR_APP_CACHE"@.subrange(0, 1));
            lemma_lex_lt_at("CHANGE_WIFI_STATE"@, "CLEAR_APP_CACHE"@, 1);
        }
        if i == 63 {
            reveal_strlit("CLEAR_APP_CACHE");
            reveal_strlit("CONTROL_LOCATION_UPDATES");
            assert("CLEAR_APP_CACHE"@.subrange(0, 1) =~= "CONTROL_LOCATION_UPDATES"@.subrange(0, 1));
            lemma_lex_lt_at("CLEAR_APP_CACHE"@, "CONTROL_LOCATION_UPDATES"@, 1);
        }
        if i == 64 {
            reveal_strlit("CONTROL_LOCATION_UPDATES");
            reveal_strlit("DELETE_CACHE_FILES");
            assert("CONTROL_LOCATION_UPDATES"@.subrange(0, 0) =~= "DELETE_CACHE_FILES"@.subrange(0, 0));
            lemma_lex_lt_at("CONTROL_LOCATION_UPDATES"@, "DELETE_CACHE_FILES"@, 0);
        }
        if i == 65 {
            reveal_strlit("DELETE_CACHE_FILES");
            reveal_strlit("DELETE_PACKAGES");
            assert("DELETE_CACHE_FILES"@.subrange(0, 7) =~= "DELETE_PACKAGES"@.subrange(0, 7));
            lemma_lex_lt_at("DELETE_CACHE_FILES"@, "DELETE_PACKAGES"@, 7);
        }
        if i == 66 {
            reveal_strlit("DELETE_PACKAGES");
            reveal_strlit("DIAGNOSTIC");
            assert("DELETE_PACKAGES"@.subrange(0, 1) =~= "DIAGNOSTIC"@.subrange(0, 1));
            lemma_lex_lt_at("DELETE_PACKAGES"@, "DIAGNOSTIC"@, 1);
        }
        if i == 67 {
            reveal_strlit("DIAGNOSTIC");
            reveal_strlit("DISABLE_KEYGUARD");
            assert("DIAGNOSTIC"@.subrange(0, 2) =~= "DISABLE_KEYGUARD"@.subrange(0, 2));
            lemma_lex_lt_at("DIAGNOSTIC"@, "DISABLE_KEYGUARD"@, 2);
        }
        if i == 68 {
            reveal_strlit("DISABLE_KEYGUARD");
            reveal_strlit("DUMP");
            assert("DISABLE_KEYGUARD"@.subrange(0, 1) =~= "DUMP"@.subrange(0, 1));
            lemma_lex_lt_at("DISABLE_KEYGUARD"@, "DUMP"@, 1);
        }
        if i == 69 {
            reveal_strlit("DUMP");
            reveal_strlit("EXPAND_STATUS_BAR");
            assert("DUMP"@.subrange(0, 0) =~= "EXPAND_STATUS_BAR"@.subrange(0, 0));
            lemma_lex_lt_at("DUMP"@, "EXPAND_STATUS_BAR"@, 0);
        }
        if i == 70 {
            reveal_strlit("EXPAND_STATUS_BAR");
            reveal_strlit("FACTORY_TEST");
            assert("EXPAND_STATUS_BAR"@.subrange(0, 0) =~= "FACTORY_TEST"@.subrange(0, 0));
            lemma_lex_lt_at("EXPAND_STATUS_BAR"@, "FACTORY_TEST"@, 0);
        }
        if i == 71 {
            reveal_strlit("FACTORY_TEST");
            reveal_strlit("FOREGROUND_SERVICE");
            assert("FACTORY_TEST"@.subrange(0, 1) =~= "FOREGROUND_SERVICE"@.subrange(0, 1));
            lemma_lex_lt_at("FACTORY_TEST"@, "FOREGROUND_SERVICE"@, 1);
        }
}

proof fn lemma_adjacent_72(i: usize)
    requires
        72 <= i < 84,
    ensures
        lex_lt(name_at(i), name_at((i + 1) as usize)),
{
    reveal(spec_nth);
    reveal(Permission::spec_name);
        if i == 72 {
            reveal_strlit("FOREGROUND_SERVICE");
            reveal_strlit("GET_ACCOUNTS");
            assert("FOREGROUND_SERVICE"@.subrange(0, 0) =~= "GET_ACCOUNTS"@.subrange(0, 0));
            lemma_lex_lt_at("FOREGROUND_SERVICE"@, "GET_ACCOUNTS"@, 0);
        }
        if i == 73 {
            reveal_strlit("GET_ACCOUNTS");
            reveal_strlit("GET_ACCOUNTS_PRIVILEGED");
            assert("GET_ACCOUNTS"@.subrange(0, 12) =~= "GET_ACCOUNTS_PRIVILEGED"@.subrange(0, 12));
            lemma_lex_lt_at("GET_ACCOUNTS"@, "GET_ACCOUNTS_PRIVILEGED"@, 12);
        }
        if i == 74 {
            reveal_strlit("GET_ACCOUNTS_PRIVILEGED");
            reveal_strlit("GET_PACKAGE_SIZE");
            assert("GET_ACCOUNTS_PRIVILEGED"@.subrange(0, 4) =~= "GET_PACKAGE_SIZE"@.subrange(0, 4));
            lemma_lex_lt_at("GET_ACCOUNTS_PRIVILEGED"@, "GET_PACKAGE_SIZE"@, 4);
        }
        if i == 75 {
            reveal_strlit("GET_PACKAGE_SIZE");
            reveal_strlit("GET_TASKS");
            assert("GET_PACKAGE_SIZE"@.subrange(0, 4) =~= "GET_TASKS"@.subrange(0, 4));
            lemma_lex_lt_at("GET_PACKAGE_SIZE"@, "GET_TASKS"@, 4);
        }
        if i == 76 {
            reveal_strlit("GET_TASKS");
            reveal_strlit("GLOBAL_SEARCH");
            assert("GET_TASKS"@.subrange(0, 1) =~= "GLOBAL_SEARCH"@.subrange(0, 1));
            lemma_lex_lt_at("GET_TASKS"@, "GLOBAL_SEARCH"@, 1);
        }
        if i == 77 {
            reveal_strlit("GLOBAL_SEARCH");
            reveal_strlit("HIDE_OVERLAY_WINDOWS");
            assert("GLOBAL_SEARCH"@.subrange(0, 0) =~= "HIDE_OVERLAY_WINDOWS"@.subrange(0, 0));
            lemma_lex_lt_at("GLOBAL_SEARCH"@, "HIDE_OVERLAY_WINDOWS"@, 0);
        }
        if i == 78 {
            reveal_strlit("HIDE_OVERLAY_WINDOWS");
            reveal_strlit("HIGH_SAMPLING_RATE_SENSORS");
            assert("HIDE_OVERLAY_WINDOWS"@.subrange(0, 2) =~= "HIGH_SAMPLING_RATE_SENSORS"@.subrange(0, 2));
            lemma_lex_lt_at("HIDE_OVERLAY_WINDOWS"@, "HIGH_SAMPLING_RATE_SENSORS"@, 2);
        }
        if i == 79 {
            reveal_strlit("HIGH_SAMPLING_RATE_SENSORS");
            reveal_strlit("INSTALL_LOCATION_PROVIDER");
            assert("HIGH_SAMPLING_RATE_SENSORS"@.subrange(0, 0) =~= "INSTALL_LOCATION_PROVIDER"@.subrange(0, 0));
            lemma_lex_lt_at("HIGH_SAMPLING_RATE_SENSORS"@, "INSTALL_LOCATION_PROVIDER"@, 0);
        }
        if i == 80 {
            reveal_strlit("INSTALL_LOCATION_PROVIDER");
            reveal_strlit("INSTALL_PACKAGES");
            assert("INSTALL_LOCATION_PROVIDER"@.subrange(0, 8) =~= "INSTALL_PACKAGES"@.subrange(0, 8));
            lemma_lex_lt_at("INSTALL_LOCATION_PROVIDER"@, "INSTALL_PACKAGES"@, 8);
        }
        if i == 81 {
            reveal_strlit("INSTALL_PACKAGES");
            reveal_strlit("INSTALL_SHORTCUT");
            assert("INSTALL_PACKAGES"@.subrange(0, 8) =~= "INSTALL_SHORTCUT"@.subrange(0, 8));
            lemma_lex_lt_at("INSTALL_PACKAGES"@, "INSTALL_SHORTCUT"@, 8);
        }
        if i == 82 {
            reveal_strlit("INSTALL_SHORTCUT");
            reveal_strlit("INSTANT_APP_FOREGROUND_SERVICE");
            assert("INSTALL_SHORTCUT"@.subrange(0, 5) =~= "INSTANT_APP_FOREGROUND_SERVICE"@.subrange(0, 5));
            lemma_lex_lt_at("INSTALL_SHORTCUT"@, "INSTANT_APP_FOREGROUND_SERVICE"@, 5);
        }
        if i == 83 {
            reveal_strlit("INSTANT_APP_FOREGROUND_SERVICE");
            reveal_strlit("INTERACT_ACROSS_PROFILES");
            assert("INSTANT_APP_FOREGROUND_SERVICE"@.subrange(0, 2) =~= "INTERACT_ACROSS_PROFILES"@.subrange(0, 2));
            lemma_lex_lt_at("INSTANT_APP_FOREGROUND_SERVICE"@, "INTERACT_ACROSS_PROFILES"@, 2);
        }
}

proof fn lemma_adjacent_84(i: usize)
    requires
        84 <= i < 96,
    ensures
        lex_lt(name_at(i), name_at((i + 1) as usize)),
{
    reveal(spec_nth);
    reveal(Permission::spec_name);
        if i == 84 {
            reveal_strlit("INTERACT_ACROSS_PROFILES");
            reveal_strlit("INTERNET");
            assert("INTERACT_ACROSS_PROFILES"@.subrange(0, 5) =~= "INTERNET"@.subrange(0, 5));
            lemma_lex_lt_at("INTERACT_ACROSS_PROFILES"@, "INTERNET"@, 5);
        }
        if i == 85 {
            reveal_strlit("INTERNET");
            reveal_strlit("KILL_BACKGROUND_PROCESSES");
            assert("INTERNET"@.subrange(0, 0) =~= "KILL_BACKGROUND_PROCESSES"@.subrange(0, 0));
            lemma_lex_lt_at("INTERNET"@, "KILL_BACKGROUND_PROCESSES"@, 0);
        }
        if i == 86 {
            reveal_strlit("KILL_BACKGROUND_PROCESSES");
            reveal_strlit("LOADER_USAGE_STATS");
            assert("KILL_BACKGROUND_PROCESSES"@.subrange(0, 0) =~= "LOADER_USAGE_STATS"@.subrange(0, 0));
            lemma_lex_lt_at("KILL_BACKGROUND_PROCESSES"@, "LOADER_USAGE_STATS"@, 0);
        }
        if i == 87 {
            reveal_strlit("LOADER_USAGE_STATS");
            reveal_strlit("LOCATION_HARDWARE");
            assert("LOADER_USAGE_STATS"@.subrange(0, 2) =~= "LOCATION_HARDWARE"@.subrange(0, 2));
            lemma_lex_lt_at("LOADER_USAGE_STATS"@, "LOCATION_HARDWARE"@, 2);
        }
        if i == 88 {
            reveal_strlit("LOCATION_HARDWARE");
            reveal_strlit("MANAGE_DOCUMENTS");
            assert("LOCATION_HARDWARE"@.subrange(0, 0) =~= "MANAGE_DOCUMENTS"@.subrange(0, 0));
            lemma_lex_lt_at("LOCATION_HARDWARE"@, "MANAGE_DOCUMENTS"@, 0);
        }
        if i == 89 {
            reveal_strlit("MANAGE_DOCUMENTS");
            reveal_strlit("MANAGE_EXTERNAL_STORAGE");
            assert("MANAGE_DOCUMENTS"@.subrange(0, 7) =~= "MANAGE_EXTERNAL_STORAGE"@.subrange(0, 7));
            lemma_lex_lt_at("MANAGE_DOCUMENTS"@, "MANAGE_EXTERNAL_STORAGE"@, 7);
        }
        if i == 90 {
            reveal_strlit("MANAGE_EXTERNAL_STORAGE");
            reveal_strlit("MANAGE_ONGOING_CALLS");
            assert("MANAGE_EXTERNAL_STORAGE"@.subrange(0, 7) =~= "MANAGE_ONGOING_CALLS"@.subrange(0, 7));
            lemma_lex_lt_at("MANAGE_EXTERNAL_STORAGE"@, "MANAGE_ONGOING_CALLS"@, 7);
        }
        if i == 91 {
            reveal_strlit("MANAGE_ONGOING_CALLS");
            reveal_strlit("MANAGE_OWN_CALLS");
            assert("MANAGE_ONGOING_CALLS"@.subrange(0, 8) =~= "MANAGE_OWN_CALLS"@.subrange(0, 8));
            lemma_lex_lt_at("MANAGE_ONGOING_CALLS"@, "MANAGE_OWN_CALLS"@, 8);
        }
        if i == 92 {
            reveal_strlit("MANAGE_OWN_CALLS");
            reveal_strlit("MASTER_CLEAR");
            assert("MANAGE_OWN_CALLS"@.subrange(0, 2) =~= "MASTER_CLEAR"@.subrange(0, 2));
            lemma_lex_lt_at("MANAGE_OWN_CALLS"@, "MASTER_CLEAR"@, 2);
        }
        if i == 93 {
            reveal_strlit("MASTER_CLEAR");
            reveal_strlit("MEDIA_CONTENT_CONTROL");
            assert("MASTER_CLEAR"@.subrange(0, 1) =~= "MEDIA_CONTENT_CONTROL"@.subrange(0, 1));
            lemma_lex_lt_at("MASTER_CLEAR"@, "MEDIA_CONTENT_CONTROL"@, 1);
        }
        if i == 94 {
            reveal_strlit("MEDIA_CONTENT_CONTROL");
            reveal_strlit("MODIFY_AUDIO_SETTINGS");
            assert("MEDIA_CONTENT_CONTROL"@.subrange(0, 1) =~= "MODIFY_AUDIO_SETTINGS"@.subrange(0, 1));
            lemma_lex_lt_at("MEDIA_CONTENT_CONTROL"@, "MODIFY_AUDIO_SETTINGS"@, 1);
        }
        if i == 95 {
            reveal_strlit("MODIFY_AUDIO_SETTINGS");
            reveal_strlit("MODIFY_PHONE_STATE");
            assert("MODIFY_AUDIO_SETTINGS"@.subrange(0, 7) =~= "MODIFY_PHONE_STATE"@.subrange(0, 7));
            lemma_lex_lt_at("MODIFY_AUDIO_SETTINGS"@, "MODIFY_PHONE_STATE"@, 7);
        }
}

proof fn lemma_adjacent_96(i: usize)
    requires
        96 <= i < 108,
    ensures
        lex_lt(name_at(i), name_at((i + 1) as usize)),
{
    reveal(spec_nth);
    reveal(Permission::spec_name);
        if i == 96 {
            reveal_strlit("MODIFY_PHONE_STATE");
            reveal_strlit("MOUNT_FORMAT_FILESYSTEMS");
            assert("MODIFY_PHONE_STATE"@.subrange(0, 2) =~= "MOUNT_FORMAT_FILESYSTEMS"@.subrange(0, 2));
            lemma_lex_lt_at("MODIFY_PHONE_STATE"@, "MOUNT_FORMAT_FILESYSTEMS"@, 2);
        }
        if i == 97 {
            reveal_strlit("MOUNT_FORMAT_FILESYSTEMS");
            reveal_strlit("MOUNT_UNMOUNT_FILESYSTEMS");
            assert("MOUNT_FORMAT_FILESYSTEMS"@.subrange(0, 6) =~= "MOUNT_UNMOUNT_FILESYSTEMS"@.subrange(0, 6));
            lemma_lex_lt_at("MOUNT_FORMAT_FILESYSTEMS"@, "MOUNT_UNMOUNT_FILESYSTEMS"@, 6);
        }
        if i == 98 {
            reveal_strlit("MOUNT_UNMOUNT_FILESYSTEMS");
            reveal_strlit("NFC");
            assert("MOUNT_UNMOUNT_FILESYSTEMS"@.subrange(0, 0) =~= "NFC"@.subrange(0, 0));
            lemma_lex_lt_at("MOUNT_UNMOUNT_FILESYSTEMS"@, "NFC"@, 0);
        }
        if i == 99 {
            reveal_strlit("NFC");
            reveal_strlit("NFC_PREFERRED_PAYMENT_INFO");
            assert("NFC"@.subrange(0, 3) =~= "NFC_PREFERRED_PAYMENT_INFO"@.subrange(0, 3));
            lemma_lex_lt_at("NFC"@, "NFC_PREFERRED_PAYMENT_INFO"@, 3);
        }
        if i == 100 {
            reveal_strlit("NFC_PREFERRED_PAYMENT_INFO");
            reveal_strlit("NFC_TRANSACTION_EVENT");
            assert("NFC_PREFERRED_PAYMENT_INFO"@.subrange(0, 4) =~= "NFC_TRANSACTION_EVENT"@.subrange(0, 4));
            lemma_lex_lt_at("NFC_PREFERRED_PAYMENT_INFO"@, "NFC_TRANSACTION_EVENT"@, 4);
        }
        if i == 101 {
            reveal_strlit("NFC_TRANSACTION_EVENT");
            reveal_strlit("PACKAGE_USAGE_STATS");
            assert("NFC_TRANSACTION_EVENT"@.subrange(0, 0) =~= "PACKAGE_USAGE_STATS"@.subrange(0, 0));
            lemma_lex_lt_at("NFC_TRANSACTION_EVENT"@, "PACKAGE_USAGE_STATS"@, 0);
        }
        if i == 102 {
            reveal_strlit("PACKAGE_USAGE_STATS");
            reveal_strlit("PERSISTENT_ACTIVITY");
            assert("PACKAGE_USAGE_STATS"@.subrange(0, 1) =~= "PERSISTENT_ACTIVITY"@.subrange(0, 1));
            lemma_lex_lt_at("PACKAGE_USAGE_STATS"@, "PERSISTENT_ACTIVITY"@, 1);
        }
        if i == 103 {
            reveal_strlit("PERSISTENT_ACTIVITY");
            reveal_strlit("PROCESS_OUTGOING_CALLS");
            assert("PERSISTENT_ACTIVITY"@.subrange(0, 1) =~= "PROCESS_OUTGOING_CALLS"@.subrange(0, 1));
            lemma_lex_lt_at("PERSISTENT_ACTIVITY"@, "PROCESS_OUTGOING_CALLS"@, 1);
        }
        if i == 104 {
            reveal_strlit("PROCESS_OUTGOING_CALLS");
            reveal_strlit("QUERY_ALL_PACKAGES");
            assert("PROCESS_OUTGOING_CALLS"@.subrange(0, 0) =~= "QUERY_ALL_PACKAGES"@.subrange(0, 0));
            lemma_lex_lt_at("PROCESS_OUTGOING_CALLS"@, "QUERY_ALL_PACKAGES"@, 0);
        }
        if i == 105 {
            reveal_strlit("QUERY_ALL_PACKAGES");
            reveal_strlit("READ_CALENDAR");
            assert("QUERY_ALL_PACKAGES"@.subrange(0, 0) =~= "READ_CALENDAR"@.subrange(0, 0));
            lemma_lex_lt_at("QUERY_ALL_PACKAGES"@, "READ_CALENDAR"@, 0);
        }
        if i == 106 {
            reveal_strlit("READ_CALENDAR");
            reveal_strlit("READ_CALL_LOG");
            assert("READ_CALENDAR"@.subrange(0, 8) =~= "READ_CALL_LOG"@.subrange(0, 8));
            lemma_lex_lt_at("READ_CALENDAR"@, "READ_CALL_LOG"@, 8);
        }
        if i == 107 {
            reveal_strlit("READ_CALL_LOG");
            reveal_strlit("READ_CONTACTS");
            assert("READ_CALL_LOG"@.subrange(0, 6) =~= "READ_CONTACTS"@.subrange(0, 6));
            lemma_lex_lt_at("READ_CALL_LOG"@, "READ_CONTACTS"@, 6);
        }
}

proof fn lemma_adjacent_108(i: usize)
    requires
        108 <= i < 120,
    ensures
        lex_lt(name_at(i), name_at((i + 1) as usize)),
{
    reveal(spec_nth);
    reveal(Permission::spec_name);
        if i == 108 {
            reveal_strlit("READ_CONTACTS");
            reveal_strlit("READ_EXTERNAL_STORAGE");
            assert("READ_CONTACTS"@.subrange(0, 5) =~= "READ_EXTERNAL_STORAGE"@.subrange(0, 5));
            lemma_lex_lt_at("READ_CONTACTS"@, "READ_EXTERNAL_STORAGE"@, 5);
        }
        if i == 109 {
            reveal_strlit("READ_EXTERNAL_STORAGE");
            reveal_strlit("READ_INPUT_STATE");
            assert("READ_EXTERNAL_STORAGE"@.subrange(0, 5) =~= "READ_INPUT_STATE"@.subrange(0, 5));
            lemma_lex_lt_at("READ_EXTERNAL_STORAGE"@, "READ_INPUT_STATE"@, 5);
        }
        if i == 110 {
            reveal_strlit("READ_INPUT_STATE");
            reveal_strlit("READ_LOGS");
            assert("READ_INPUT_STATE"@.subrange(0, 5) =~= "READ_LOGS"@.subrange(0, 5));
            lemma_lex_lt_at("READ_INPUT_STATE"@, "READ_LOGS"@, 5);
        }
        if i == 111 {
            reveal_strlit("READ_LOGS");
            reveal_strlit("READ_PHONE_NUMBERS");
            assert("READ_LOGS"@.subrange(0, 5) =~= "READ_PHONE_NUMBERS"@.subrange(0, 5));
            lemma_lex_lt_at("READ_LOGS"@, "READ_PHONE_NUMBERS"@, 5);
        }
        if i == 112 {
            reveal_strlit("READ_PHONE_NUMBERS");
            reveal_strlit("READ_PHONE_STATE");
            assert("READ_PHONE_NUMBERS"@.subrange(0, 11) =~= "READ_PHONE_STATE"@.subrange(0, 11));
            lemma_lex_lt_at("READ_PHONE_NUMBERS"@, "READ_PHONE_STATE"@, 11);
        }
        if i == 113 {
            reveal_strlit("READ_PHONE_STATE");
            reveal_strlit("READ_PRECISE_PHONE_STATE");
            assert("READ_PHONE_STATE"@.subrange(0, 6) =~= "READ_PRECISE_PHONE_STATE"@.subrange(0, 6));
            lemma_lex_lt_at("READ_PHONE_STATE"@, "READ_PRECISE_PHONE_STATE"@, 6);
        }
        if i == 114 {
            reveal_strlit("READ_PRECISE_PHONE_STATE");
            reveal_strlit("READ_SMS");
            assert("READ_PRECISE_PHONE_STATE"@.subrange(0, 5) =~= "READ_SMS"@.subrange(0, 5));
            lemma_lex_lt_at("READ_PRECISE_PHONE_STATE"@, "READ_SMS"@, 5);
        }
        if i == 115 {
            reveal_strlit("READ_SMS");
            reveal_strlit("READ_SYNC_SETTINGS");
            assert("READ_SMS"@.subrange(0, 6) =~= "READ_SYNC_SETTINGS"@.subrange(0, 6));
            lemma_lex_lt_at("READ_SMS"@, "READ_SYNC_SETTINGS"@, 6);
        }
        if i == 116 {
            reveal_strlit("READ_SYNC_SETTINGS");
            reveal_strlit("READ_SYNC_STATS");
            assert("READ_SYNC_SETTINGS"@.subrange(0, 11) =~= "READ_SYNC_STATS"@.subrange(0, 11));
            lemma_lex_lt_at("READ_SYNC_SETTINGS"@, "READ_SYNC_STATS"@, 11);
        }
        if i == 117 {
            reveal_strlit("READ_SYNC_STATS");
            reveal_strlit("READ_VOICEMAIL");
            assert("READ_SYNC_STATS"@.subrange(0, 5) =~= "READ_VOICEMAIL"@.subrange(0, 5));
            lemma_lex_lt_at("READ_SYNC_STATS"@, "READ_VOICEMAIL"@, 5);
        }
        if i == 118 {
            reveal_strlit("READ_VOICEMAIL");
            reveal_strlit("REBOOT");
            assert("READ_VOICEMAIL"@.subrange(0, 2) =~= "REBOOT"@.subrange(0, 2));
            lemma_lex_lt_at("READ_VOICEMAIL"@, "REBOOT"@, 2);
        }
        if i == 119 {
            reveal_strlit("REBOOT");
            reveal_strlit("RECEIVE_BOOT_COMPLETED");
            assert("REBOOT"@.subrange(0, 2) =~= "RECEIVE_BOOT_COMPLETED"@.subrange(0, 2));
            lemma_lex_lt_at("REBOOT"@, "RECEIVE_BOOT_COMPLETED"@, 2);
        }
}

proof fn lemma_adjacent_120(i: usize)
    requires
        120 <= i < 132,
    ensures
        lex_lt(name_at(i), name_at((i + 1) as usize)),
{
    reveal(spec_nth);
    reveal(Permission::spec_name);
        if i == 120 {
            reveal_strlit("RECEIVE_BOOT_COMPLETED");
            reveal_strlit("RECEIVE_MMS");
            assert("RECEIVE_BOOT_COMPLETED"@.subrange(0, 8) =~= "RECEIVE_MMS"@.subrange(0, 8));
            lemma_lex_lt_at("RECEIVE_BOOT_COMPLETED"@, "RECEIVE_MMS"@, 8);
        }
        if i == 121 {
            reveal_strlit("RECEIVE_MMS");
            reveal_strlit("RECEIVE_SMS");
            assert("RECEIVE_MMS"@.subrange(0, 8) =~= "RECEIVE_SMS"@.subrange(0, 8));
            lemma_lex_lt_at("RECEIVE_MMS"@, "RECEIVE_SMS"@, 8);
        }
        if i == 122 {
            reveal_strlit("RECEIVE_SMS");
            reveal_strlit("RECEIVE_WAP_PUSH");
            assert("RECEIVE_SMS"@.subrange(0, 8) =~= "RECEIVE_WAP_PUSH"@.subrange(0, 8));
            lemma_lex_lt_at("RECEIVE_SMS"@, "RECEIVE_WAP_PUSH"@, 8);
        }
        if i == 123 {
            reveal_strlit("RECEIVE_WAP_PUSH");
            reveal_strlit("RECORD_AUDIO");
            assert("RECEIVE_WAP_PUSH"@.subrange(0, 3) =~= "RECORD_AUDIO"@.subrange(0, 3));
            lemma_lex_lt_at("RECEIVE_WAP_PUSH"@, "RECORD_AUDIO"@, 3);
        }
        if i == 124 {
            reveal_strlit("RECORD_AUDIO");
            reveal_strlit("REORDER_TASKS");
            assert("RECORD_AUDIO"@.subrange(0, 2) =~= "REORDER_TASKS"@.subrange(0, 2));
            lemma_lex_lt_at("RECORD_AUDIO"@, "REORDER_TASKS"@, 2);
        }
        if i == 125 {
            reveal_strlit("REORDER_TASKS");
            reveal_strlit("REQUEST_COMPANION_PROFILE_WATCH");
            assert("REORDER_TASKS"@.subrange(0, 2) =~= "REQUEST_COMPANION_PROFILE_WATCH"@.subrange(0, 2));
            lemma_lex_lt_at("REORDER_TASKS"@, "REQUEST_COMPANION_PROFILE_WATCH"@, 2);
        }
        if i == 126 {
            reveal_strlit("REQUEST_COMPANION_PROFILE_WATCH");
            reveal_strlit("REQUEST_COMPANION_RUN_IN_BACKGROUND");
            assert("REQUEST_COMPANION_PROFILE_WATCH"@.subrange(0, 18) =~= "REQUEST_COMPANION_RUN_IN_BACKGROUND"@.subrange(0, 18));
            lemma_lex_lt_at("REQUEST_COMPANION_PROFILE_WATCH"@, "REQUEST_COMPANION_RUN_IN_BACKGROUND"@, 18);
        }
        if i == 127 {
            reveal_strlit("REQUEST_COMPANION_RUN_IN_BACKGROUND");
            reveal_strlit("REQUEST_COMPANION_USE_DATA_IN_BACKGROUND");
            assert("REQUEST_COMPANION_RUN_IN_BACKGROUND"@.subrange(0, 18) =~= "REQUEST_COMPANION_USE_DATA_IN_BACKGROUND"@.subrange(0, 18));
            lemma_lex_lt_at("REQUEST_COMPANION_RUN_IN_BACKGROUND"@, "REQUEST_COMPANION_USE_DATA_IN_BACKGROUND"@, 18);
        }
        if i == 128 {
            reveal_strlit("REQUEST_COMPANION_USE_DATA_IN_BACKGROUND");
            reveal_strlit("REQUEST_DELETE_PACKAGES");
            assert("REQUEST_COMPANION_USE_DATA_IN_BACKGROUND"@.subrange(0, 8) =~= "REQUEST_DELETE_PACKAGES"@.subrange(0, 8));
            lemma_lex_lt_at("REQUEST_COMPANION_USE_DATA_IN_BACKGROUND"@, "REQUEST_DELETE_PACKAGES"@, 8);
        }
        if i == 129 {
            reveal_strlit("REQUEST_DELETE_PACKAGES");
            reveal_strlit("REQUEST_IGNORE_BATTERY_OPTIMIZATIONS");
            assert("REQUEST_DELETE_PACKAGES"@.subrange(0, 8) =~= "REQUEST_IGNORE_BATTERY_OPTIMIZATIONS"@.subrange(0, 8));
            lemma_lex_lt_at("REQUEST_DELETE_PACKAGES"@, "REQUEST_IGNORE_BATTERY_OPTIMIZATIONS"@, 8);
        }
        if i == 130 {
            reveal_strlit("REQUEST_IGNORE_BATTERY_OPTIMIZATIONS");
            reveal_strlit("REQUEST_INSTALL_PACKAGES");
            assert("REQUEST_IGNORE_BATTERY_OPTIMIZATIONS"@.subrange(0, 9) =~= "REQUEST_INSTALL_PACKAGES"@.subrange(0, 9));
            lemma_lex_lt_at("REQUEST_IGNORE_BATTERY_OPTIMIZATIONS"@, "REQUEST_INSTALL_PACKAGES"@, 9);
        }
        if i == 131 {
            reveal_strlit("REQUEST_INSTALL_PACKAGES");
            reveal_strlit("REQUEST_OBSERVE_COMPANION_DEVICE_PRESENCE");
            assert("REQUEST_INSTALL_PACKAGES"@.subrange(0, 8) =~= "REQUEST_OBSERVE_COMPANION_DEVICE_PRESENCE"@.subrange(0, 8));
            lemma_lex_lt_at("REQUEST_INSTALL_PACKAGES"@, "REQUEST_OBSERVE_COMPANION_DEVICE_PRESENCE"@, 8);
        }
}

proof fn lemma_adjacent_132(i: usize)
    requires
        132 <= i < 144,
    ensures
        lex_lt(name_at(i), name_at((i + 1) as usize)),
{
    reveal(spec_nth);
    reveal(Permission::spec_name);
        if i == 132 {
            reveal_strlit("REQUEST_OBSERVE_COMPANION_DEVICE_PRESENCE");
            reveal_strlit("REQUEST_PASSWORD_COMPLEXITY");
            assert("REQUEST_OBSERVE_COMPANION_DEVICE_PRESENCE"@.subrange(0, 8) =~= "REQUEST_PASSWORD_COMPLEXITY"@.subrange(0, 8));
            lemma_lex_lt_at("REQUEST_OBSERVE_COMPANION_DEVICE_PRESENCE"@, "REQUEST_PASSWORD_COMPLEXITY"@, 8);
        }
        if i == 133 {
            reveal_strlit("REQUEST_PASSWORD_COMPLEXITY");
            reveal_strlit("RESTART_PACKAGES");
            assert("REQUEST_PASSWORD_COMPLEXITY"@.subrange(0, 2) =~= "RESTART_PACKAGES"@.subrange(0, 2));
            lemma_lex_lt_at("REQUEST_PASSWORD_COMPLEXITY"@, "RESTART_PACKAGES"@, 2);
        }
        if i == 134 {
            reveal_strlit("RESTART_PACKAGES");
            reveal_strlit("SCHEDULE_EXACT_ALARM");
            assert("RESTART_PACKAGES"@.subrange(0, 0) =~= "SCHEDULE_EXACT_ALARM"@.subrange(0, 0));
            lemma_lex_lt_at("RESTART_PACKAGES"@, "SCHEDULE_EXACT_ALARM"@, 0);
        }
        if i == 135 {
            reveal_strlit("SCHEDULE_EXACT_ALARM");
            reveal_strlit("SEND_RESPOND_VIA_MESSAGE");
            assert("SCHEDULE_EXACT_ALARM"@.subrange(0, 1) =~= "SEND_RESPOND_VIA_MESSAGE"@.subrange(0, 1));
            lemma_lex_lt_at("SCHEDULE_EXACT_ALARM"@, "SEND_RESPOND_VIA_MESSAGE"@, 1);
        }
        if i == 136 {
            reveal_strlit("SEND_RESPOND_VIA_MESSAGE");
            reveal_strlit("SEND_SMS");
            assert("SEND_RESPOND_VIA_MESSAGE"@.subrange(0, 5) =~= "SEND_SMS"@.subrange(0, 5));
            lemma_lex_lt_at("SEND_RESPOND_VIA_MESSAGE"@, "SEND_SMS"@, 5);
        }
        if i == 137 {
            reveal_strlit("SEND_SMS");
            reveal_strlit("SET_ALARM");
            assert("SEND_SMS"@.subrange(0, 2) =~= "SET_ALARM"@.subrange(0, 2));
            lemma_lex_lt_at("SEND_SMS"@, "SET_ALARM"@, 2);
        }
        if i == 138 {
            reveal_strlit("SET_ALARM");
            reveal_strlit("SET_ALWAYS_FINISH");
            assert("SET_ALARM"@.subrange(0, 6) =~= "SET_ALWAYS_FINISH"@.subrange(0, 6));
            lemma_lex_lt_at("SET_ALARM"@, "SET_ALWAYS_FINISH"@, 6);
        }
        if i == 139 {
            reveal_strlit("SET_ALWAYS_FINISH");
            reveal_strlit("SET_ANIMATION_SCALE");
            assert("SET_ALWAYS_FINISH"@.subrange(0, 5) =~= "SET_ANIMATION_SCALE"@.subrange(0, 5));
            lemma_lex_lt_at("SET_ALWAYS_FINISH"@, "SET_ANIMATION_SCALE"@, 5);
        }
        if i == 140 {
            reveal_strlit("SET_ANIMATION_SCALE");
            reveal_strlit("SET_DEBUG_APP");
            assert("SET_ANIMATION_SCALE"@.subrange(0, 4) =~= "SET_DEBUG_APP"@.subrange(0, 4));
            lemma_lex_lt_at("SET_ANIMATION_SCALE"@, "SET_DEBUG_APP"@, 4);
        }
        if i == 141 {
            reveal_strlit("SET_DEBUG_APP");
            reveal_strlit("SET_PREFERRED_APPLICATIONS");
            assert("SET_DEBUG_APP"@.subrange(0, 4) =~= "SET_PREFERRED_APPLICATIONS"@.subrange(0, 4));
            lemma_lex_lt_at("SET_DEBUG_APP"@, "SET_PREFERRED_APPLICATIONS"@, 4);
        }
        if i == 142 {
            reveal_strlit("SET_PREFERRED_APPLICATIONS");
            reveal_strlit("SET_PROCESS_LIMIT");
            assert("SET_PREFERRED_APPLICATIONS"@.subrange(0, 6) =~= "SET_PROCESS_LIMIT"@.subrange(0, 6));
            lemma_lex_lt_at("SET_PREFERRED_APPLICATIONS"@, "SET_PROCESS_LIMIT"@, 6);
        }
        if i == 143 {
            reveal_strlit("SET_PROCESS_LIMIT");
            reveal_strlit("SET_TIME");
            assert("SET_PROCESS_LIMIT"@.subrange(0, 4) =~= "SET_TIME"@.subrange(0, 4));
            lemma_lex_lt_at("SET_PROCESS_LIMIT"@, "SET_TIME"@, 4);
        }
}

proof fn lemma_adjacent_144(i: usize)
    requires
        144 <= i < 156,
    ensures
        lex_lt(name_at(i), name_at((i + 1) as usize)),
{
    reveal(spec_nth);
    reveal(Permission::spec_name);
        if i == 144 {
            reveal_strlit("SET_TIME");
            reveal_strlit("SET_TIME_ZONE");
            assert("SET_TIME"@.subrange(0, 8) =~= "SET_TIME_ZONE"@.subrange(0, 8));
            lemma_lex_lt_at("SET_TIME"@, "SET_TIME_ZONE"@, 8);
        }
        if i == 145 {
            reveal_strlit("SET_TIME_ZONE");
            reveal_strlit("SET_WALLPAPER");
            assert("SET_TIME_ZONE"@.subrange(0, 4) =~= "SET_WALLPAPER"@.subrange(0, 4));
            lemma_lex_lt_at("SET_TIME_ZONE"@, "SET_WALLPAPER"@, 4);
        }
        if i == 146 {
            reveal_strlit("SET_WALLPAPER");
            reveal_strlit("SET_WALLPAPER_HINTS");
            assert("SET_WALLPAPER"@.subrange(0, 13) =~= "SET_WALLPAPER_HINTS"@.subrange(0, 13));
            lemma_lex_lt_at("SET_WALLPAPER"@, "SET_WALLPAPER_HINTS"@, 13);
        }
        if i == 147 {
            reveal_strlit("SET_WALLPAPER_HINTS");
            reveal_strlit("SIGNAL_PERSISTENT_PROCESSES");
            assert("SET_WALLPAPER_HINTS"@.subrange(0, 1) =~= "SIGNAL_PERSISTENT_PROCESSES"@.subrange(0, 1));
            lemma_lex_lt_at("SET_WALLPAPER_HINTS"@, "SIGNAL_PERSISTENT_PROCESSES"@, 1);
        }
        if i == 148 {
            reveal_strlit("SIGNAL_PERSISTENT_PROCESSES");
            reveal_strlit("SMS_FINANCIAL_TRANSACTIONS");
            assert("SIGNAL_PERSISTENT_PROCESSES"@.subrange(0, 1) =~= "SMS_FINANCIAL_TRANSACTIONS"@.subrange(0, 1));
            lemma_lex_lt_at("SIGNAL_PERSISTENT_PROCESSES"@, "SMS_FINANCIAL_TRANSACTIONS"@, 1);
        }
        if i == 149 {
            reveal_strlit("SMS_FINANCIAL_TRANSACTIONS");
            reveal_strlit("START_VIEW_PERMISSION_USAGE");
            assert("SMS_FINANCIAL_TRANSACTIONS"@.subrange(0, 1) =~= "START_VIEW_PERMISSION_USAGE"@.subrange(0, 1));
            lemma_lex_lt_at("SMS_FINANCIAL_TRANSACTIONS"@, "START_VIEW_PERMISSION_USAGE"@, 1);
        }
        if i == 150 {
            reveal_strlit("START_VIEW_PERMISSION_USAGE");
            reveal_strlit("STATUS_BAR");
            assert("START_VIEW_PERMISSION_USAGE"@.subrange(0, 3) =~= "STATUS_BAR"@.subrange(0, 3));
            lemma_lex_lt_at("START_VIEW_PERMISSION_USAGE"@, "STATUS_BAR"@, 3);
        }
        if i == 151 {
            reveal_strlit("STATUS_BAR");
            reveal_strlit("SYSTEM_ALERT_WINDOW");
            assert("STATUS_BAR"@.subrange(0, 1) =~= "SYSTEM_ALERT_WINDOW"@.subrange(0, 1));
            lemma_lex_lt_at("STATUS_BAR"@, "SYSTEM_ALERT_WINDOW"@, 1);
        }
        if i == 152 {
            reveal_strlit("SYSTEM_ALERT_WINDOW");
            reveal_strlit("TRANSMIT_IR");
            assert("SYSTEM_ALERT_WINDOW"@.subrange(0, 0) =~= "TRANSMIT_IR"@.subrange(0, 0));
            lemma_lex_lt_at("SYSTEM_ALERT_WINDOW"@, "TRANSMIT_IR"@, 0);
        }
        if i == 153 {
            reveal_strlit("TRANSMIT_IR");
            reveal_strlit("UNINSTALL_SHORTCUT");
            assert("TRANSMIT_IR"@.subrange(0, 0) =~= "UNINSTALL_SHORTCUT"@.subrange(0, 0));
            lemma_lex_lt_at("TRANSMIT_IR"@, "UNINSTALL_SHORTCUT"@, 0);
        }
        if i == 154 {
            reveal_strlit("UNINSTALL_SHORTCUT");
            reveal_strlit("UPDATE_DEVICE_STATS");
            assert("UNINSTALL_SHORTCUT"@.subrange(0, 1) =~= "UPDATE_DEVICE_STATS"@.subrange(0, 1));
            lemma_lex_lt_at("UNINSTALL_SHORTCUT"@, "UPDATE_DEVICE_STATS"@, 1);
        }
        if i == 155 {
            reveal_strlit("UPDATE_DEVICE_STATS");
            reveal_strlit("USE_BIOMETRIC");
            assert("UPDATE_DEVICE_STATS"@.subrange(0, 1) =~= "USE_BIOMETRIC"@.subrange(0, 1));
            lemma_lex_lt_at("UPDATE_DEVICE_STATS"@, "USE_BIOMETRIC"@, 1);
        }
}

proof fn lemma_adjacent_156(i: usize)
    requires
        156 <= i < 168,
    ensures
        lex_lt(name_at(i), name_at((i + 1) as usize)),
{
    reveal(spec_nth);
    reveal(Permission::spec_name);
        if i == 156 {
            reveal_strlit("USE_BIOMETRIC");
            reveal_strlit("USE_FINGERPRINT");
            assert("USE_BIOMETRIC"@.subrange(0, 4) =~= "USE_FINGERPRINT"@.subrange(0, 4));
            lemma_lex_lt_at("USE_BIOMETRIC"@, "USE_FINGERPRINT"@, 4);
        }
        if i == 157 {
            reveal_strlit("USE_FINGERPRINT");
            reveal_strlit("USE_FULL_SCREEN_INTENT");
            assert("USE_FINGERPRINT"@.subrange(0, 5) =~= "USE_FULL_SCREEN_INTENT"@.subrange(0, 5));
            lemma_lex_lt_at("USE_FINGERPRINT"@, "USE_FULL_SCREEN_INTENT"@, 5);
        }
        if i == 158 {
            reveal_strlit("USE_FULL_SCREEN_INTENT");
            reveal_strlit("USE_ICC_AUTH_WITH_DEVICE_IDENTIFIER");
            assert("USE_FULL_SCREEN_INTENT"@.subrange(0, 4) =~= "USE_ICC_AUTH_WITH_DEVICE_IDENTIFIER"@.subrange(0, 4));
            lemma_lex_lt_at("USE_FULL_SCREEN_INTENT"@, "USE_ICC_AUTH_WITH_DEVICE_IDENTIFIER"@, 4);
        }
        if i == 159 {
            reveal_strlit("USE_ICC_AUTH_WITH_DEVICE_IDENTIFIER");
            reveal_strlit("USE_SIP");
            assert("USE_ICC_AUTH_WITH_DEVICE_IDENTIFIER"@.subrange(0, 4) =~= "USE_SIP"@.subrange(0, 4));
            lemma_lex_lt_at("USE_ICC_AUTH_WITH_DEVICE_IDENTIFIER"@, "USE_SIP"@, 4);
        }
        if i == 160 {
            reveal_strlit("USE_SIP");
            reveal_strlit("VIBRATE");
            assert("USE_SIP"@.subrange(0, 0) =~= "VIBRATE"@.subrange(0, 0));
            lemma_lex_lt_at("USE_SIP"@, "VIBRATE"@, 0);
        }
        if i == 161 {
            reveal_strlit("VIBRATE");
            reveal_strlit("WAKE_LOCK");
            assert("VIBRATE"@.subrange(0, 0) =~= "WAKE_LOCK"@.subrange(0, 0));
            lemma_lex_lt_at("VIBRATE"@, "WAKE_LOCK"@, 0);
        }
        if i == 162 {
            reveal_strlit("WAKE_LOCK");
            reveal_strlit("WRITE_APN_SETTINGS");
            assert("WAKE_LOCK"@.subrange(0, 1) =~= "WRITE_APN_SETTINGS"@.subrange(0, 1));
            lemma_lex_lt_at("WAKE_LOCK"@, "WRITE_APN_SETTINGS"@, 1);
        }
        if i == 163 {
            reveal_strlit("WRITE_APN_SETTINGS");
            reveal_strlit("WRITE_CALENDAR");
            assert("WRITE_APN_SETTINGS"@.subrange(0, 6) =~= "WRITE_CALENDAR"@.subrange(0, 6));
            lemma_lex_lt_at("WRITE_APN_SETTINGS"@, "WRITE_CALENDAR"@, 6);
        }
        if i == 164 {
            reveal_strlit("WRITE_CALENDAR");
            reveal_strlit("WRITE_CALL_LOG");
            assert("WRITE_CALENDAR"@.subrange(0, 9) =~= "WRITE_CALL_LOG"@.subrange(0, 9));
            lemma_lex_lt_at("WRITE_CALENDAR"@, "WRITE_CALL_LOG"@, 9);
        }
        if i == 165 {
            reveal_strlit("WRITE_CALL_LOG");
            reveal_strlit("WRITE_CONTACTS");
            assert("WRITE_CALL_LOG"@.subrange(0, 7) =~= "WRITE_CONTACTS"@.subrange(0, 7));
            lemma_lex_lt_at("WRITE_CALL_LOG"@, "WRITE_CONTACTS"@, 7);
        }
        if i == 166 {
            reveal_strlit("WRITE_CONTACTS");
            reveal_strlit("WRITE_EXTERNAL_STORAGE");
            assert("WRITE_CONTACTS"@.subrange(0, 6) =~= "WRITE_EXTERNAL_STORAGE"@.subrange(0, 6));
            lemma_lex_lt_at("WRITE_CONTACTS"@, "WRITE_EXTERNAL_STORAGE"@, 6);
        }
        if i == 167 {
            reveal_strlit("WRITE_EXTERNAL_STORAGE");
            reveal_strlit("WRITE_GSERVICES");
            assert("WRITE_EXTERNAL_STORAGE"@.subrange(0, 6) =~= "WRITE_GSERVICES"@.subrange(0, 6));
            lemma_lex_lt_at("WRITE_EXTERNAL_STORAGE"@, "WRITE_GSERVICES"@, 6);
        }
}

proof fn lemma_adjacent_168(i: usize)
    requires
        168 <= i < 172,
    ensures
        lex_lt(name_at(i), name_at((i + 1) as usize)),
{
    reveal(spec_nth);
    reveal(Permission::spec_name);
        if i == 168 {
            reveal_strlit("WRITE_GSERVICES");
            reveal_strlit("WRITE_SECURE_SETTINGS");
            assert("WRITE_GSERVICES"@.subrange(0, 6) =~= "WRITE_SECURE_SETTINGS"@.subrange(0, 6));
            lemma_lex_lt_at("WRITE_GSERVICES"@, "WRITE_SECURE_SETTINGS"@, 6);
        }
        if i == 169 {
            reveal_strlit("WRITE_SECURE_SETTINGS");
            reveal_strlit("WRITE_SETTINGS");
            assert("WRITE_SECURE_SETTINGS"@.subrange(0, 8) =~= "WRITE_SETTINGS"@.subrange(0, 8));
            lemma_lex_lt_at("WRITE_SECURE_SETTINGS"@, "WRITE_SETTINGS"@, 8);
        }
        if i == 170 {
            reveal_strlit("WRITE_SETTINGS");
            reveal_strlit("WRITE_SYNC_SETTINGS");
            assert("WRITE_SETTINGS"@.subrange(0, 7) =~= "WRITE_SYNC_SETTINGS"@.subrange(0, 7));
            lemma_lex_lt_at("WRITE_SETTINGS"@, "WRITE_SYNC_SETTINGS"@, 7);
        }
        if i == 171 {
            reveal_strlit("WRITE_SYNC_SETTINGS");
            reveal_strlit("WRITE_VOICEMAIL");
            assert("WRITE_SYNC_SETTINGS"@.subrange(0, 6) =~= "WRITE_VOICEMAIL"@.subrange(0, 6));
            lemma_lex_lt_at("WRITE_SYNC_SETTINGS"@, "WRITE_VOICEMAIL"@, 6);
        }
}

proof fn lemma_adjacent(i: usize)
    requires
        i + 1 < PERMISSION_COUNT,
    ensures
        lex_lt(name_at(i), name_at((i + 1) as usize)),
{
    if i < 12 {
        lemma_adjacent_0(i);
    } else if i < 24 {
        lemma_adjacent_12(i);
    } else if i < 36 {
        lemma_adjacent_24(i);
    } else if i < 48 {
        lemma_adjacent_36(i);
    } else if i < 60 {
        lemma_adjacent_48(i);
    } else if i < 72 {
        lemma_adjacent_60(i);
    } else if i < 84 {
        lemma_adjacent_72(i);
    } else if i < 96 {
        lemma_adjacent_84(i);
    } else if i < 108 {
        lemma_adjacent_96(i);
    } else if i < 120 {
        lemma_adjacent_108(i);
    } else if i < 132 {
        lemma_adjacent_120(i);
    } else if i < 144 {
        lemma_adjacent_132(i);
    } else if i < 156 {
        lemma_adjacent_144(i);
    } else if i < 168 {
        lemma_adjacent_156(i);
    } else if i < 172 {
        lemma_adjacent_168(i);
    }
}

/// The listing is in strictly ascending order of name.
proof fn lemma_names_ascending(i: usize, j: usize)
    requires
        i < j < PERMISSION_COUNT,
    ensures
        lex_lt(name_at(i), name_at(j)),
    decreases j - i,
{
    lemma_adjacent(i);
    if i + 1 < j {
        lemma_names_ascending((i + 1) as usize, j);
        lemma_lex_transitive(name_at(i), name_at((i + 1) as usize), name_at(j));
    }
}

/// No two permissions share a name.
pub proof fn lemma_names_distinct(p: Permission, q: Permission)
    ensures
        p.spec_name() == q.spec_name() ==> p == q,
{
    p.lemma_listed();
    q.lemma_listed();
    let i = p.spec_ordinal();
    let j = q.spec_ordinal();
    if i < j {
        lemma_names_ascending(i, j);
        lemma_lex_irreflexive(p.spec_name());
    } else if j < i {
        lemma_names_ascending(j, i);
        lemma_lex_irreflexive(p.spec_name());
    }
}

impl Permission {
    /// The permission's short name.
    #[verifier::opaque]
    pub open spec fn spec_name(self) -> Seq<char> {
        match self {
            Permission::ACCEPT_HANDOVER => "ACCEPT_HANDOVER"@,
            Permission::ACCESS_BACKGROUND_LOCATION => "ACCESS_BACKGROUND_LOCATION"@,
            Permission::ACCESS_CHECKIN_PROPERTIES => "ACCESS_CHECKIN_PROPERTIES"@,
            Permission::ACCESS_COARSE_LOCATION => "ACCESS_COARSE_LOCATION"@,
            Permission::ACCESS_FINE_LOCATION => "ACCESS_FINE_LOCATION"@,
            Permission::ACCESS_LOCATION_EXTRA_COMMANDS => "ACCESS_LOCATION_EXTRA_COMMANDS"@,
            Permission::ACCESS_MEDIA_LOCATION => "ACCESS_MEDIA_LOCATION"@,
            Permission::ACCESS_NETWORK_STATE => "ACCESS_NETWORK_STATE"@,
            Permission::ACCESS_NOTIFICATION_POLICY => "ACCESS_NOTIFICATION_POLICY"@,
            Permission::ACCESS_WIFI_STATE => "ACCESS_WIFI_STATE"@,
            Permission::ACTIVITY_RECOGNITION => "ACTIVITY_RECOGNITION"@,
            Permission::ADD_VOICEMAIL => "ADD_VOICEMAIL"@,
            Permission::ANSWER_PHONE_CALLS => "ANSWER_PHONE_CALLS"@,
            Permission::BATTERY_STATS => "BATTERY_STATS"@,
            Permission::BIND_ACCESSIBILITY_SERVICE => "BIND_ACCESSIBILITY_SERVICE"@,
            Permission::BIND_APPWIDGET => "BIND_APPWIDGET"@,
            Permission::BIND_AUTOFILL_SERVICE => "BIND_AUTOFILL_SERVICE"@,
            Permission::BIND_CALL_REDIRECTION_SERVICE => "BIND_CALL_REDIRECTION_SERVICE"@,
            Permission::BIND_CARRIER_MESSAGING_CLIENT_SERVICE => "BIND_CARRIER_MESSAGING_CLIENT_SERVICE"@,
            Permission::BIND_CARRIER_MESSAGING_SERVICE => "BIND_CARRIER_MESSAGING_SERVICE"@,
            Permission::BIND_CARRIER_SERVICES => "BIND_CARRIER_SERVICES"@,
            Permission::BIND_CHOOSER_TARGET_SERVICE => "BIND_CHOOSER_TARGET_SERVICE"@,
            Permission::BIND_COMPANION_DEVICE_SERVICE => "BIND_COMPANION_DEVICE_SERVICE"@,
            Permission::BIND_CONDITION_PROVIDER_SERVICE => "BIND_CONDITION_PROVIDER_SERVICE"@,
            Permission::BIND_CONTROLS => "BIND_CONTROLS"@,
            Permission::BIND_DEVICE_ADMIN => "BIND_DEVICE_ADMIN"@,
            Permission::BIND_DREAM_SERVICE => "BIND_DREAM_SERVICE"@,
            Permission::BIND_INCALL_SERVICE => "BIND_INCALL_SERVICE"@,
            Permission::BIND_INPUT_METHOD => "BIND_INPUT_METHOD"@,
            Permission::BIND_MIDI_DEVICE_SERVICE => "BIND_MIDI_DEVICE_SERVICE"@,
            Permission::BIND_NFC_SERVICE => "BIND_NFC_SERVICE"@,
            Permission::BIND_NOTIFICATION_LISTENER_SERVICE => "BIND_NOTIFICATION_LISTENER_SERVICE"@,
            Permission::BIND_PRINT_SERVICE => "BIND_PRINT_SERVICE"@,
            Permission::BIND_QUICK_ACCESS_WALLET_SERVICE => "BIND_QUICK_ACCESS_WALLET_SERVICE"@,
            Permission::BIND_QUICK_SETTINGS_TILE => "BIND_QUICK_SETTINGS_TILE"@,
            Permission::BIND_REMOTEVIEWS => "BIND_REMOTEVIEWS"@,
            Permission::BIND_SCREENING_SERVICE => "BIND_SCREENING_SERVICE"@,
            Permission::BIND_TELECOM_CONNECTION_SERVICE => "BIND_TELECOM_CONNECTION_SERVICE"@,
            Permission::BIND_TEXT_SERVICE => "BIND_TEXT_SERVICE"@,
            Permission::BIND_TV_INPUT => "BIND_TV_INPUT"@,
            Permission::BIND_VISUAL_VOICEMAIL_SERVICE => "BIND_VISUAL_VOICEMAIL_SERVICE"@,
            Permission::BIND_VOICE_INTERACTION => "BIND_VOICE_INTERACTION"@,
            Permission::BIND_VPN_SERVICE => "BIND_VPN_SERVICE"@,
            Permission::BIND_VR_LISTENER_SERVICE => "BIND_VR_LISTENER_SERVICE"@,
            Permission::BIND_WALLPAPER => "BIND_WALLPAPER"@,
            Permission::BLUETOOTH => "BLUETOOTH"@,
            Permission::BLUETOOTH_ADMIN => "BLUETOOTH_ADMIN"@,
            Permission::BLUETOOTH_PRIVILEGED => "BLUETOOTH_PRIVILEGED"@,
            Permission::BODY_SENSORS => "BODY_SENSORS"@,
            Permission::BROADCAST_PACKAGE_REMOVED => "BROADCAST_PACKAGE_REMOVED"@,
            Permission::BROADCAST_SMS => "BROADCAST_SMS"@,
            Permission::BROADCAST_STICKY => "BROADCAST_STICKY"@,
            Permission::BROADCAST_WAP_PUSH => "BROADCAST_WAP_PUSH"@,
            Permission::CALL_COMPANION_APP => "CALL_COMPANION_APP"@,
            Permission::CALL_PHONE => "CALL_PHONE"@,
            Permission::CALL_PRIVILEGED => "CALL_PRIVILEGED"@,
            Permission::CAMERA => "CAMERA"@,
            Permission::CAPTURE_AUDIO_OUTPUT => "CAPTURE_AUDIO_OUTPUT"@,
            Permission::CHANGE_COMPONENT_ENABLED_STATE => "CHANGE_COMPONENT_ENABLED_STATE"@,
            Permission::CHANGE_CONFIGURATION => "CHANGE_CONFIGURATION"@,
            Permission::CHANGE_NETWORK_STATE => "CHANGE_NETWORK_STATE"@,
            Permission::CHANGE_WIFI_MULTICAST_STATE => "CHANGE_WIFI_MULTICAST_STATE"@,
            Permission::CHANGE_WIFI_STATE => "CHANGE_WIFI_STATE"@,
            Permission::CLEAR_APP_CACHE => "CLEAR_APP_CACHE"@,
            Permission::CONTROL_LOCATION_UPDATES => "CONTROL_LOCATION_UPDATES"@,
            Permission::DELETE_CACHE_FILES => "DELETE_CACHE_FILES"@,
            Permission::DELETE_PACKAGES => "DELETE_PACKAGES"@,
            Permission::DIAGNOSTIC => "DIAGNOSTIC"@,
            Permission::DISABLE_KEYGUARD => "DISABLE_KEYGUARD"@,
            Permission::DUMP => "DUMP"@,
            Permission::EXPAND_STATUS_BAR => "EXPAND_STATUS_BAR"@,
            Permission::FACTORY_TEST => "FACTORY_TEST"@,
            Permission::FOREGROUND_SERVICE => "FOREGROUND_SERVICE"@,
            Permission::GET_ACCOUNTS => "GET_ACCOUNTS"@,
            Permission::GET_ACCOUNTS_PRIVILEGED => "GET_ACCOUNTS_PRIVILEGED"@,
            Permission::GET_PACKAGE_SIZE => "GET_PACKAGE_SIZE"@,
            Permission::GET_TASKS => "GET_TASKS"@,
            Permission::GLOBAL_SEARCH => "GLOBAL_SEARCH"@,
            Permission::HIDE_OVERLAY_WINDOWS => "HIDE_OVERLAY_WINDOWS"@,
            Permission::HIGH_SAMPLING_RATE_SENSORS => "HIGH_SAMPLING_RATE_SENSORS"@,
            Permission::INSTALL_LOCATION_PROVIDER => "INSTALL_LOCATION_PROVIDER"@,
            Permission::INSTALL_PACKAGES => "INSTALL_PACKAGES"@,
            Permission::INSTALL_SHORTCUT => "INSTALL_SHORTCUT"@,
            Permission::INSTANT_APP_FOREGROUND_SERVICE => "INSTANT_APP_FOREGROUND_SERVICE"@,
            Permission::INTERACT_ACROSS_PROFILES => "INTERACT_ACROSS_PROFILES"@,
            Permission::INTERNET => "INTERNET"@,
            Permission::KILL_BACKGROUND_PROCESSES => "KILL_BACKGROUND_PROCESSES"@,
            Permission::LOADER_USAGE_STATS => "LOADER_USAGE_STATS"@,
            Permission::LOCATION_HARDWARE => "LOCATION_HARDWARE"@,
            Permission::MANAGE_DOCUMENTS => "MANAGE_DOCUMENTS"@,
            Permission::MANAGE_EXTERNAL_STORAGE => "MANAGE_EXTERNAL_STORAGE"@,
            Permission::MANAGE_ONGOING_CALLS => "MANAGE_ONGOING_CALLS"@,
            Permission::MANAGE_OWN_CALLS => "MANAGE_OWN_CALLS"@,
            Permission::MASTER_CLEAR => "MASTER_CLEAR"@,
            Permission::MEDIA_CONTENT_CONTROL => "MEDIA_CONTENT_CONTROL"@,
            Permission::MODIFY_AUDIO_SETTINGS => "MODIFY_AUDIO_SETTINGS"@,
            Permission::MODIFY_PHONE_STATE => "MODIFY_PHONE_STATE"@,
            Permission::MOUNT_FORMAT_FILESYSTEMS => "MOUNT_FORMAT_FILESYSTEMS"@,
            Permission::MOUNT_UNMOUNT_FILESYSTEMS => "MOUNT_UNMOUNT_FILESYSTEMS"@,
            Permission::NFC => "NFC"@,
            Permission::NFC_PREFERRED_PAYMENT_INFO => "NFC_PREFERRED_PAYMENT_INFO"@,
            Permission::NFC_TRANSACTION_EVENT => "NFC_TRANSACTION_EVENT"@,
            Permission::PACKAGE_USAGE_STATS => "PACKAGE_USAGE_STATS"@,
            Permission::PERSISTENT_ACTIVITY => "PERSISTENT_ACTIVITY"@,
            Permission::PROCESS_OUTGOING_CALLS => "PROCESS_OUTGOING_CALLS"@,
            Permission::QUERY_ALL_PACKAGES => "QUERY_ALL_PACKAGES"@,
            Permission::READ_CALENDAR => "READ_CALENDAR"@,
            Permission::READ_CALL_LOG => "READ_CALL_LOG"@,
            Permission::READ_CONTACTS => "READ_CONTACTS"@,
            Permission::READ_EXTERNAL_STORAGE => "READ_EXTERNAL_STORAGE"@,
            Permission::READ_INPUT_STATE => "READ_INPUT_STATE"@,
            Permission::READ_LOGS => "READ_LOGS"@,
            Permission::READ_PHONE_NUMBERS => "READ_PHONE_NUMBERS"@,
            Permission::READ_PHONE_STATE => "READ_PHONE_STATE"@,
            Permission::READ_PRECISE_PHONE_STATE => "READ_PRECISE_PHONE_STATE"@,
            Permission::READ_SMS => "READ_SMS"@,
            Permission::READ_SYNC_SETTINGS => "READ_SYNC_SETTINGS"@,
            Permission::READ_SYNC_STATS => "READ_SYNC_STATS"@,
            Permission::READ_VOICEMAIL => "READ_VOICEMAIL"@,
            Permission::REBOOT => "REBOOT"@,
            Permission::RECEIVE_BOOT_COMPLETED => "RECEIVE_BOOT_COMPLETED"@,
            Permission::RECEIVE_MMS => "RECEIVE_MMS"@,
            Permission::RECEIVE_SMS => "RECEIVE_SMS"@,
            Permission::RECEIVE_WAP_PUSH => "RECEIVE_WAP_PUSH"@,
            Permission::RECORD_AUDIO => "RECORD_AUDIO"@,
            Permission::REORDER_TASKS => "REORDER_TASKS"@,
            Permission::REQUEST_COMPANION_PROFILE_WATCH => "REQUEST_COMPANION_PROFILE_WATCH"@,
            Permission::REQUEST_COMPANION_RUN_IN_BACKGROUND => "REQUEST_COMPANION_RUN_IN_BACKGROUND"@,
            Permission::REQUEST_COMPANION_USE_DATA_IN_BACKGROUND => "REQUEST_COMPANION_USE_DATA_IN_BACKGROUND"@,
            Permission::REQUEST_DELETE_PACKAGES => "REQUEST_DELETE_PACKAGES"@,
            Permission::REQUEST_IGNORE_BATTERY_OPTIMIZATIONS => "REQUEST_IGNORE_BATTERY_OPTIMIZATIONS"@,
            Permission::REQUEST_INSTALL_PACKAGES => "REQUEST_INSTALL_PACKAGES"@,
            Permission::REQUEST_OBSERVE_COMPANION_DEVICE_PRESENCE => "REQUEST_OBSERVE_COMPANION_DEVICE_PRESENCE"@,
            Permission::REQUEST_PASSWORD_COMPLEXITY => "REQUEST_PASSWORD_COMPLEXITY"@,
            Permission::RESTART_PACKAGES => "RESTART_PACKAGES"@,
            Permission::SCHEDULE_EXACT_ALARM => "SCHEDULE_EXACT_ALARM"@,
            Permission::SEND_RESPOND_VIA_MESSAGE => "SEND_RESPOND_VIA_MESSAGE"@,
            Permission::SEND_SMS => "SEND_SMS"@,
            Permission::SET_ALARM => "SET_ALARM"@,
            Permission::SET_ALWAYS_FINISH => "SET_ALWAYS_FINISH"@,
            Permission::SET_ANIMATION_SCALE => "SET_ANIMATION_SCALE"@,
            Permission::SET_DEBUG_APP => "SET_DEBUG_APP"@,
            Permission::SET_PREFERRED_APPLICATIONS => "SET_PREFERRED_APPLICATIONS"@,
            Permission::SET_PROCESS_LIMIT => "SET_PROCESS_LIMIT"@,
            Permission::SET_TIME => "SET_TIME"@,
            Permission::SET_TIME_ZONE => "SET_TIME_ZONE"@,
            Permission::SET_WALLPAPER => "SET_WALLPAPER"@,
            Permission::SET_WALLPAPER_HINTS => "SET_WALLPAPER_HINTS"@,
            Permission::SIGNAL_PERSISTENT_PROCESSES => "SIGNAL_PERSISTENT_PROCESSES"@,
            Permission::SMS_FINANCIAL_TRANSACTIONS => "SMS_FINANCIAL_TRANSACTIONS"@,
            Permission::START_VIEW_PERMISSION_USAGE => "START_VIEW_PERMISSION_USAGE"@,
            Permission::STATUS_BAR => "STATUS_BAR"@,
            Permission::SYSTEM_ALERT_WINDOW => "SYSTEM_ALERT_WINDOW"@,
            Permission::TRANSMIT_IR => "TRANSMIT_IR"@,
            Permission::UNINSTALL_SHORTCUT => "UNINSTALL_SHORTCUT"@,
            Permission::UPDATE_DEVICE_STATS => "UPDATE_DEVICE_STATS"@,
            Permission::USE_BIOMETRIC => "USE_BIOMETRIC"@,
            Permission::USE_FINGERPRINT => "USE_FINGERPRINT"@,
            Permission::USE_FULL_SCREEN_INTENT => "USE_FULL_SCREEN_INTENT"@,
            Permission::USE_ICC_AUTH_WITH_DEVICE_IDENTIFIER => "USE_ICC_AUTH_WITH_DEVICE_IDENTIFIER"@,
            Permission::USE_SIP => "USE_SIP"@,
            Permission::VIBRATE => "VIBRATE"@,
            Permission::WAKE_LOCK => "WAKE_LOCK"@,
            Permission::WRITE_APN_SETTINGS => "WRITE_APN_SETTINGS"@,
            Permission::WRITE_CALENDAR => "WRITE_CALENDAR"@,
            Permission::WRITE_CALL_LOG => "WRITE_CALL_LOG"@,
            Permission::WRITE_CONTACTS => "WRITE_CONTACTS"@,
            Permission::WRITE_EXTERNAL_STORAGE => "WRITE_EXTERNAL_STORAGE"@,
            Permission::WRITE_GSERVICES => "WRITE_GSERVICES"@,
            Permission::WRITE_SECURE_SETTINGS => "WRITE_SECURE_SETTINGS"@,
            Permission::WRITE_SETTINGS => "WRITE_SETTINGS"@,
            Permission::WRITE_SYNC_SETTINGS => "WRITE_SYNC_SETTINGS"@,
            Permission::WRITE_VOICEMAIL => "WRITE_VOICEMAIL"@,
        }
    }

    /// The permission's position in the vocabulary's fixed listing.
    #[verifier::opaque]
    pub open spec fn spec_ordinal(self) -> usize {
        match self {
            Permission::ACCEPT_HANDOVER => 0,
            Permission::ACCESS_BACKGROUND_LOCATION => 1,
            Permission::ACCESS_CHECKIN_PROPERTIES => 2,
            Permission::ACCESS_COARSE_LOCATION => 3,
            Permission::ACCESS_FINE_LOCATION => 4,
            Permission::ACCESS_LOCATION_EXTRA_COMMANDS => 5,
            Permission::ACCESS_MEDIA_LOCATION => 6,
            Permission::ACCESS_NETWORK_STATE => 7,
            Permission::ACCESS_NOTIFICATION_POLICY => 8,
            Permission::ACCESS_WIFI_STATE => 9,
            Permission::ACTIVITY_RECOGNITION => 10,
            Permission::ADD_VOICEMAIL => 11,
            Permission::ANSWER_PHONE_CALLS => 12,
            Permission::BATTERY_STATS => 13,
            Permission::BIND_ACCESSIBILITY_SERVICE => 14,
            Permission::BIND_APPWIDGET => 15,
            Permission::BIND_AUTOFILL_SERVICE => 16,
            Permission::BIND_CALL_REDIRECTION_SERVICE => 17,
            Permission::BIND_CARRIER_MESSAGING_CLIENT_SERVICE => 18,
            Permission::BIND_CARRIER_MESSAGING_SERVICE => 19,
            Permission::BIND_CARRIER_SERVICES => 20,
            Permission::BIND_CHOOSER_TARGET_SERVICE => 21,
            Permission::BIND_COMPANION_DEVICE_SERVICE => 22,
            Permission::BIND_CONDITION_PROVIDER_SERVICE => 23,
            Permission::BIND_CONTROLS => 24,
            Permission::BIND_DEVICE_ADMIN => 25,
            Permission::BIND_DREAM_SERVICE => 26,
            Permission::BIND_INCALL_SERVICE => 27,
            Permission::BIND_INPUT_METHOD => 28,
            Permission::BIND_MIDI_DEVICE_SERVICE => 29,
            Permission::BIND_NFC_SERVICE => 30,
            Permission::BIND_NOTIFICATION_LISTENER_SERVICE => 31,
            Permission::BIND_PRINT_SERVICE => 32,
            Permission::BIND_QUICK_ACCESS_WALLET_SERVICE => 33,
            Permission::BIND_QUICK_SETTINGS_TILE => 34,
            Permission::BIND_REMOTEVIEWS => 35,
            Permission::BIND_SCREENING_SERVICE => 36,
            Permission::BIND_TELECOM_CONNECTION_SERVICE => 37,
            Permission::BIND_TEXT_SERVICE => 38,
            Permission::BIND_TV_INPUT => 39,
            Permission::BIND_VISUAL_VOICEMAIL_SERVICE => 40,
            Permission::BIND_VOICE_INTERACTION => 41,
            Permission::BIND_VPN_SERVICE => 42,
            Permission::BIND_VR_LISTENER_SERVICE => 43,
            Permission::BIND_WALLPAPER => 44,
            Permission::BLUETOOTH => 45,
            Permission::BLUETOOTH_ADMIN => 46,
            Permission::BLUETOOTH_PRIVILEGED => 47,
            Permission::BODY_SENSORS => 48,
            Permission::BROADCAST_PACKAGE_REMOVED => 49,
            Permission::BROADCAST_SMS => 50,
            Permission::BROADCAST_STICKY => 51,
            Permission::BROADCAST_WAP_PUSH => 52,
            Permission::CALL_COMPANION_APP => 53,
            Permission::CALL_PHONE => 54,
            Permission::CALL_PRIVILEGED => 55,
            Permission::CAMERA => 56,
            Permission::CAPTURE_AUDIO_OUTPUT => 57,
            Permission::CHANGE_COMPONENT_ENABLED_STATE => 58,
            Permission::CHANGE_CONFIGURATION => 59,
            Permission::CHANGE_NETWORK_STATE => 60,
            Permission::CHANGE_WIFI_MULTICAST_STATE => 61,
            Permission::CHANGE_WIFI_STATE => 62,
            Permission::CLEAR_APP_CACHE => 63,
            Permission::CONTROL_LOCATION_UPDATES => 64,
            Permission::DELETE_CACHE_FILES => 65,
            Permission::DELETE_PACKAGES => 66,
            Permission::DIAGNOSTIC => 67,
            Permission::DISABLE_KEYGUARD => 68,
            Permission::DUMP => 69,
            Permission::EXPAND_STATUS_BAR => 70,
            Permission::FACTORY_TEST => 71,
            Permission::FOREGROUND_SERVICE => 72,
            Permission::GET_ACCOUNTS => 73,
            Permission::GET_ACCOUNTS_PRIVILEGED => 74,
            Permission::GET_PACKAGE_SIZE => 75,
            Permission::GET_TASKS => 76,
            Permission::GLOBAL_SEARCH => 77,
            Permission::HIDE_OVERLAY_WINDOWS => 78,
            Permission::HIGH_SAMPLING_RATE_SENSORS => 79,
            Permission::INSTALL_LOCATION_PROVIDER => 80,
            Permission::INSTALL_PACKAGES => 81,
            Permission::INSTALL_SHORTCUT => 82,
            Permission::INSTANT_APP_FOREGROUND_SERVICE => 83,
            Permission::INTERACT_ACROSS_PROFILES => 84,
            Permission::INTERNET => 85,
            Permission::KILL_BACKGROUND_PROCESSES => 86,
            Permission::LOADER_USAGE_STATS => 87,
            Permission::LOCATION_HARDWARE => 88,
            Permission::MANAGE_DOCUMENTS => 89,
            Permission::MANAGE_EXTERNAL_STORAGE => 90,
            Permission::MANAGE_ONGOING_CALLS => 91,
            Permission::MANAGE_OWN_CALLS => 92,
            Permission::MASTER_CLEAR => 93,
            Permission::MEDIA_CONTENT_CONTROL => 94,
            Permission::MODIFY_AUDIO_SETTINGS => 95,
            Permission::MODIFY_PHONE_STATE => 96,
            Permission::MOUNT_FORMAT_FILESYSTEMS => 97,
            Permission::MOUNT_UNMOUNT_FILESYSTEMS => 98,
            Permission::NFC => 99,
            Permission::NFC_PREFERRED_PAYMENT_INFO => 100,
            Permission::NFC_TRANSACTION_EVENT => 101,
            Permission::PACKAGE_USAGE_STATS => 102,
            Permission::PERSISTENT_ACTIVITY => 103,
            Permission::PROCESS_OUTGOING_CALLS => 104,
            Permission::QUERY_ALL_PACKAGES => 105,
            Permission::READ_CALENDAR => 106,
            Permission::READ_CALL_LOG => 107,
            Permission::READ_CONTACTS => 108,
            Permission::READ_EXTERNAL_STORAGE => 109,
            Permission::READ_INPUT_STATE => 110,
            Permission::READ_LOGS => 111,
            Permission::READ_PHONE_NUMBERS => 112,
            Permission::READ_PHONE_STATE => 113,
            Permission::READ_PRECISE_PHONE_STATE => 114,
            Permission::READ_SMS => 115,
            Permission::READ_SYNC_SETTINGS => 116,
            Permission::READ_SYNC_STATS => 117,
            Permission::READ_VOICEMAIL => 118,
            Permission::REBOOT => 119,
            Permission::RECEIVE_BOOT_COMPLETED => 120,
            Permission::RECEIVE_MMS => 121,
            Permission::RECEIVE_SMS => 122,
            Permission::RECEIVE_WAP_PUSH => 123,
            Permission::RECORD_AUDIO => 124,
            Permission::REORDER_TASKS => 125,
            Permission::REQUEST_COMPANION_PROFILE_WATCH => 126,
            Permission::REQUEST_COMPANION_RUN_IN_BACKGROUND => 127,
            Permission::REQUEST_COMPANION_USE_DATA_IN_BACKGROUND => 128,
            Permission::REQUEST_DELETE_PACKAGES => 129,
            Permission::REQUEST_IGNORE_BATTERY_OPTIMIZATIONS => 130,
            Permission::REQUEST_INSTALL_PACKAGES => 131,
            Permission::REQUEST_OBSERVE_COMPANION_DEVICE_PRESENCE => 132,
            Permission::REQUEST_PASSWORD_COMPLEXITY => 133,
            Permission::RESTART_PACKAGES => 134,
            Permission::SCHEDULE_EXACT_ALARM => 135,
            Permission::SEND_RESPOND_VIA_MESSAGE => 136,
            Permission::SEND_SMS => 137,
            Permission::SET_ALARM => 138,
            Permission::SET_ALWAYS_FINISH => 139,
            Permission::SET_ANIMATION_SCALE => 140,
            Permission::SET_DEBUG_APP => 141,
            Permission::SET_PREFERRED_APPLICATIONS => 142,
            Permission::SET_PROCESS_LIMIT => 143,
            Permission::SET_TIME => 144,
            Permission::SET_TIME_ZONE => 145,
            Permission::SET_WALLPAPER => 146,
            Permission::SET_WALLPAPER_HINTS => 147,
            Permission::SIGNAL_PERSISTENT_PROCESSES => 148,
            Permission::SMS_FINANCIAL_TRANSACTIONS => 149,
            Permission::START_VIEW_PERMISSION_USAGE => 150,
            Permission::STATUS_BAR => 151,
            Permission::SYSTEM_ALERT_WINDOW => 152,
            Permission::TRANSMIT_IR => 153,
            Permission::UNINSTALL_SHORTCUT => 154,
            Permission::UPDATE_DEVICE_STATS => 155,
            Permission::USE_BIOMETRIC => 156,
            Permission::USE_FINGERPRINT => 157,
            Permission::USE_FULL_SCREEN_INTENT => 158,
            Permission::USE_ICC_AUTH_WITH_DEVICE_IDENTIFIER => 159,
            Permission::USE_SIP => 160,
            Permission::VIBRATE => 161,
            Permission::WAKE_LOCK => 162,
            Permission::WRITE_APN_SETTINGS => 163,
            Permission::WRITE_CALENDAR => 164,
            Permission::WRITE_CALL_LOG => 165,
            Permission::WRITE_CONTACTS => 166,
            Permission::WRITE_EXTERNAL_STORAGE => 167,
            Permission::WRITE_GSERVICES => 168,
            Permission::WRITE_SECURE_SETTINGS => 169,
            Permission::WRITE_SETTINGS => 170,
            Permission::WRITE_SYNC_SETTINGS => 171,
            Permission::WRITE_VOICEMAIL => 172,
        }
    }

    /// Every permission has a position in the listing.
    pub proof fn lemma_listed(self)
        ensures
            self.spec_ordinal() < PERMISSION_COUNT,
            spec_nth(self.spec_ordinal()) == Some(self),
    {
        reveal(spec_nth);
        reveal(Permission::spec_ordinal);
        match self {
            Permission::ACCEPT_HANDOVER => {},
            Permission::ACCESS_BACKGROUND_LOCATION => {},
            Permission::ACCESS_CHECKIN_PROPERTIES => {},
            Permission::ACCESS_COARSE_LOCATION => {},
            Permission::ACCESS_FINE_LOCATION => {},
            Permission::ACCESS_LOCATION_EXTRA_COMMANDS => {},
            Permission::ACCESS_MEDIA_LOCATION => {},
            Permission::ACCESS_NETWORK_STATE => {},
            Permission::ACCESS_NOTIFICATION_POLICY => {},
            Permission::ACCESS_WIFI_STATE => {},
            Permission::ACTIVITY_RECOGNITION => {},
            Permission::ADD_VOICEMAIL => {},
            Permission::ANSWER_PHONE_CALLS => {},
            Permission::BATTERY_STATS => {},
            Permission::BIND_ACCESSIBILITY_SERVICE => {},
            Permission::BIND_APPWIDGET => {},
            Permission::BIND_AUTOFILL_SERVICE => {},
            Permission::BIND_CALL_REDIRECTION_SERVICE => {},
            Permission::BIND_CARRIER_MESSAGING_CLIENT_SERVICE => {},
            Permission::BIND_CARRIER_MESSAGING_SERVICE => {},
            Permission::BIND_CARRIER_SERVICES => {},
            Permission::BIND_CHOOSER_TARGET_SERVICE => {},
            Permission::BIND_COMPANION_DEVICE_SERVICE => {},
            Permission::BIND_CONDITION_PROVIDER_SERVICE => {},
            Permission::BIND_CONTROLS => {},
            Permission::BIND_DEVICE_ADMIN => {},
            Permission::BIND_DREAM_SERVICE => {},
            Permission::BIND_INCALL_SERVICE => {},
            Permission::BIND_INPUT_METHOD => {},
            Permission::BIND_MIDI_DEVICE_SERVICE => {},
            Permission::BIND_NFC_SERVICE => {},
            Permission::BIND_NOTIFICATION_LISTENER_SERVICE => {},
            Permission::BIND_PRINT_SERVICE => {},
            Permission::BIND_QUICK_ACCESS_WALLET_SERVICE => {},
            Permission::BIND_QUICK_SETTINGS_TILE => {},
            Permission::BIND_REMOTEVIEWS => {},
            Permission::BIND_SCREENING_SERVICE => {},
            Permission::BIND_TELECOM_CONNECTION_SERVICE => {},
            Permission::BIND_TEXT_SERVICE => {},
            Permission::BIND_TV_INPUT => {},
            Permission::BIND_VISUAL_VOICEMAIL_SERVICE => {},
            Permission::BIND_VOICE_INTERACTION => {},
            Permission::BIND_VPN_SERVICE => {},
            Permission::BIND_VR_LISTENER_SERVICE => {},
            Permission::BIND_WALLPAPER => {},
            Permission::BLUETOOTH => {},
            Permission::BLUETOOTH_ADMIN => {},
            Permission::BLUETOOTH_PRIVILEGED => {},
            Permission::BODY_SENSORS => {},
            Permission::BROADCAST_PACKAGE_REMOVED => {},
            Permission::BROADCAST_SMS => {},
            Permission::BROADCAST_STICKY => {},
            Permission::BROADCAST_WAP_PUSH => {},
            Permission::CALL_COMPANION_APP => {},
            Permission::CALL_PHONE => {},
            Permission::CALL_PRIVILEGED => {},
            Permission::CAMERA => {},
            Permission::CAPTURE_AUDIO_OUTPUT => {},
            Permission::CHANGE_COMPONENT_ENABLED_STATE => {},
            Permission::CHANGE_CONFIGURATION => {},
            Permission::CHANGE_NETWORK_STATE => {},
            Permission::CHANGE_WIFI_MULTICAST_STATE => {},
            Permission::CHANGE_WIFI_STATE => {},
            Permission::CLEAR_APP_CACHE => {},
            Permission::CONTROL_LOCATION_UPDATES => {},
            Permission::DELETE_CACHE_FILES => {},
            Permission::DELETE_PACKAGES => {},
            Permission::DIAGNOSTIC => {},
            Permission::DISABLE_KEYGUARD => {},
            Permission::DUMP => {},
            Permission::EXPAND_STATUS_BAR => {},
            Permission::FACTORY_TEST => {},
            Permission::FOREGROUND_SERVICE => {},
            Permission::GET_ACCOUNTS => {},
            Permission::GET_ACCOUNTS_PRIVILEGED => {},
            Permission::GET_PACKAGE_SIZE => {},
            Permission::GET_TASKS => {},
            Permission::GLOBAL_SEARCH => {},
            Permission::HIDE_OVERLAY_WINDOWS => {},
            Permission::HIGH_SAMPLING_RATE_SENSORS => {},
            Permission::INSTALL_LOCATION_PROVIDER => {},
            Permission::INSTALL_PACKAGES => {},
            Permission::INSTALL_SHORTCUT => {},
            Permission::INSTANT_APP_FOREGROUND_SERVICE => {},
            Permission::INTERACT_ACROSS_PROFILES => {},
            Permission::INTERNET => {},
            Permission::KILL_BACKGROUND_PROCESSES => {},
            Permission::LOADER_USAGE_STATS => {},
            Permission::LOCATION_HARDWARE => {},
            Permission::MANAGE_DOCUMENTS => {},
            Permission::MANAGE_EXTERNAL_STORAGE => {},
            Permission::MANAGE_ONGOING_CALLS => {},
            Permission::MANAGE_OWN_CALLS => {},
            Permission::MASTER_CLEAR => {},
            Permission::MEDIA_CONTENT_CONTROL => {},
            Permission::MODIFY_AUDIO_SETTINGS => {},
            Permission::MODIFY_PHONE_STATE => {},
            Permission::MOUNT_FORMAT_FILESYSTEMS => {},
            Permission::MOUNT_UNMOUNT_FILESYSTEMS => {},
            Permission::NFC => {},
            Permission::NFC_PREFERRED_PAYMENT_INFO => {},
            Permission::NFC_TRANSACTION_EVENT => {},
            Permission::PACKAGE_USAGE_STATS => {},
            Permission::PERSISTENT_ACTIVITY => {},
            Permission::PROCESS_OUTGOING_CALLS => {},
            Permission::QUERY_ALL_PACKAGES => {},
            Permission::READ_CALENDAR => {},
            Permission::READ_CALL_LOG => {},
            Permission::READ_CONTACTS => {},
            Permission::READ_EXTERNAL_STORAGE => {},
            Permission::READ_INPUT_STATE => {},
            Permission::READ_LOGS => {},
            Permission::READ_PHONE_NUMBERS => {},
            Permission::READ_PHONE_STATE => {},
            Permission::READ_PRECISE_PHONE_STATE => {},
            Permission::READ_SMS => {},
            Permission::READ_SYNC_SETTINGS => {},
            Permission::READ_SYNC_STATS => {},
            Permission::READ_VOICEMAIL => {},
            Permission::REBOOT => {},
            Permission::RECEIVE_BOOT_COMPLETED => {},
            Permission::RECEIVE_MMS => {},
            Permission::RECEIVE_SMS => {},
            Permission::RECEIVE_WAP_PUSH => {},
            Permission::RECORD_AUDIO => {},
            Permission::REORDER_TASKS => {},
            Permission::REQUEST_COMPANION_PROFILE_WATCH => {},
            Permission::REQUEST_COMPANION_RUN_IN_BACKGROUND => {},
            Permission::REQUEST_COMPANION_USE_DATA_IN_BACKGROUND => {},
            Permission::REQUEST_DELETE_PACKAGES => {},
            Permission::REQUEST_IGNORE_BATTERY_OPTIMIZATIONS => {},
            Permission::REQUEST_INSTALL_PACKAGES => {},
            Permission::REQUEST_OBSERVE_COMPANION_DEVICE_PRESENCE => {},
            Permission::REQUEST_PASSWORD_COMPLEXITY => {},
            Permission::RESTART_PACKAGES => {},
            Permission::SCHEDULE_EXACT_ALARM => {},
            Permission::SEND_RESPOND_VIA_MESSAGE => {},
            Permission::SEND_SMS => {},
            Permission::SET_ALARM => {},
            Permission::SET_ALWAYS_FINISH => {},
            Permission::SET_ANIMATION_SCALE => {},
            Permission::SET_DEBUG_APP => {},
            Permission::SET_PREFERRED_APPLICATIONS => {},
            Permission::SET_PROCESS_LIMIT => {},
            Permission::SET_TIME => {},
            Permission::SET_TIME_ZONE => {},
            Permission::SET_WALLPAPER => {},
            Permission::SET_WALLPAPER_HINTS => {},
            Permission::SIGNAL_PERSISTENT_PROCESSES => {},
            Permission::SMS_FINANCIAL_TRANSACTIONS => {},
            Permission::START_VIEW_PERMISSION_USAGE => {},
            Permission::STATUS_BAR => {},
            Permission::SYSTEM_ALERT_WINDOW => {},
            Permission::TRANSMIT_IR => {},
            Permission::UNINSTALL_SHORTCUT => {},
            Permission::UPDATE_DEVICE_STATS => {},
            Permission::USE_BIOMETRIC => {},
            Permission::USE_FINGERPRINT => {},
            Permission::USE_FULL_SCREEN_INTENT => {},
            Permission::USE_ICC_AUTH_WITH_DEVICE_IDENTIFIER => {},
            Permission::USE_SIP => {},
            Permission::VIBRATE => {},
            Permission::WAKE_LOCK => {},
            Permission::WRITE_APN_SETTINGS => {},
            Permission::WRITE_CALENDAR => {},
            Permission::WRITE_CALL_LOG => {},
            Permission::WRITE_CONTACTS => {},
            Permission::WRITE_EXTERNAL_STORAGE => {},
            Permission::WRITE_GSERVICES => {},
            Permission::WRITE_SECURE_SETTINGS => {},
            Permission::WRITE_SETTINGS => {},
            Permission::WRITE_SYNC_SETTINGS => {},
            Permission::WRITE_VOICEMAIL => {},
        }
    }

    /// The permission's short name, as the manifest spells it after the
    /// platform prefix.
    pub fn as_str(&self) -> (r: &'static str)
        ensures
            r@ == self.spec_name(),
    {
        proof {
            reveal(Permission::spec_name);
        }
        match self {
            Permission::ACCEPT_HANDOVER => "ACCEPT_HANDOVER",
            Permission::ACCESS_BACKGROUND_LOCATION => "ACCESS_BACKGROUND_LOCATION",
            Permission::ACCESS_CHECKIN_PROPERTIES => "ACCESS_CHECKIN_PROPERTIES",
            Permission::ACCESS_COARSE_LOCATION => "ACCESS_COARSE_LOCATION",
            Permission::ACCESS_FINE_LOCATION => "ACCESS_FINE_LOCATION",
            Permission::ACCESS_LOCATION_EXTRA_COMMANDS => "ACCESS_LOCATION_EXTRA_COMMANDS",
            Permission::ACCESS_MEDIA_LOCATION => "ACCESS_MEDIA_LOCATION",
            Permission::ACCESS_NETWORK_STATE => "ACCESS_NETWORK_STATE",
            Permission::ACCESS_NOTIFICATION_POLICY => "ACCESS_NOTIFICATION_POLICY",
            Permission::ACCESS_WIFI_STATE => "ACCESS_WIFI_STATE",
            Permission::ACTIVITY_RECOGNITION => "ACTIVITY_RECOGNITION",
            Permission::ADD_VOICEMAIL => "ADD_VOICEMAIL",
            Permission::ANSWER_PHONE_CALLS => "ANSWER_PHONE_CALLS",
            Permission::BATTERY_STATS => "BATTERY_STATS",
            Permission::BIND_ACCESSIBILITY_SERVICE => "BIND_ACCESSIBILITY_SERVICE",
            Permission::BIND_APPWIDGET => "BIND_APPWIDGET",
            Permission::BIND_AUTOFILL_SERVICE => "BIND_AUTOFILL_SERVICE",
            Permission::BIND_CALL_REDIRECTION_SERVICE => "BIND_CALL_REDIRECTION_SERVICE",
            Permission::BIND_CARRIER_MESSAGING_CLIENT_SERVICE => "BIND_CARRIER_MESSAGING_CLIENT_SERVICE",
            Permission::BIND_CARRIER_MESSAGING_SERVICE => "BIND_CARRIER_MESSAGING_SERVICE",
            Permission::BIND_CARRIER_SERVICES => "BIND_CARRIER_SERVICES",
            Permission::BIND_CHOOSER_TARGET_SERVICE => "BIND_CHOOSER_TARGET_SERVICE",
            Permission::BIND_COMPANION_DEVICE_SERVICE => "BIND_COMPANION_DEVICE_SERVICE",
            Permission::BIND_CONDITION_PROVIDER_SERVICE => "BIND_CONDITION_PROVIDER_SERVICE",
            Permission::BIND_CONTROLS => "BIND_CONTROLS",
            Permission::BIND_DEVICE_ADMIN => "BIND_DEVICE_ADMIN",
            Permission::BIND_DREAM_SERVICE => "BIND_DREAM_SERVICE",
            Permission::BIND_INCALL_SERVICE => "BIND_INCALL_SERVICE",
            Permission::BIND_INPUT_METHOD => "BIND_INPUT_METHOD",
            Permission::BIND_MIDI_DEVICE_SERVICE => "BIND_MIDI_DEVICE_SERVICE",
            Permission::BIND_NFC_SERVICE => "BIND_NFC_SERVICE",
            Permission::BIND_NOTIFICATION_LISTENER_SERVICE => "BIND_NOTIFICATION_LISTENER_SERVICE",
            Permission::BIND_PRINT_SERVICE => "BIND_PRINT_SERVICE",
            Permission::BIND_QUICK_ACCESS_WALLET_SERVICE => "BIND_QUICK_ACCESS_WALLET_SERVICE",
            Permission::BIND_QUICK_SETTINGS_TILE => "BIND_QUICK_SETTINGS_TILE",
            Permission::BIND_REMOTEVIEWS => "BIND_REMOTEVIEWS",
            Permission::BIND_SCREENING_SERVICE => "BIND_SCREENING_SERVICE",
            Permission::BIND_TELECOM_CONNECTION_SERVICE => "BIND_TELECOM_CONNECTION_SERVICE",
            Permission::BIND_TEXT_SERVICE => "BIND_TEXT_SERVICE",
            Permission::BIND_TV_INPUT => "BIND_TV_INPUT",
            Permission::BIND_VISUAL_VOICEMAIL_SERVICE => "BIND_VISUAL_VOICEMAIL_SERVICE",
            Permission::BIND_VOICE_INTERACTION => "BIND_VOICE_INTERACTION",
            Permission::BIND_VPN_SERVICE => "BIND_VPN_SERVICE",
            Permission::BIND_VR_LISTENER_SERVICE => "BIND_VR_LISTENER_SERVICE",
            Permission::BIND_WALLPAPER => "BIND_WALLPAPER",
            Permission::BLUETOOTH => "BLUETOOTH",
            Permission::BLUETOOTH_ADMIN => "BLUETOOTH_ADMIN",
            Permission::BLUETOOTH_PRIVILEGED => "BLUETOOTH_PRIVILEGED",
            Permission::BODY_SENSORS => "BODY_SENSORS",
            Permission::BROADCAST_PACKAGE_REMOVED => "BROADCAST_PACKAGE_REMOVED",
            Permission::BROADCAST_SMS => "BROADCAST_SMS",
            Permission::BROADCAST_STICKY => "BROADCAST_STICKY",
            Permission::BROADCAST_WAP_PUSH => "BROADCAST_WAP_PUSH",
            Permission::CALL_COMPANION_APP => "CALL_COMPANION_APP",
            Permission::CALL_PHONE => "CALL_PHONE",
            Permission::CALL_PRIVILEGED => "CALL_PRIVILEGED",
            Permission::CAMERA => "CAMERA",
            Permission::CAPTURE_AUDIO_OUTPUT => "CAPTURE_AUDIO_OUTPUT",
            Permission::CHANGE_COMPONENT_ENABLED_STATE => "CHANGE_COMPONENT_ENABLED_STATE",
            Permission::CHANGE_CONFIGURATION => "CHANGE_CONFIGURATION",
            Permission::CHANGE_NETWORK_STATE => "CHANGE_NETWORK_STATE",
            Permission::CHANGE_WIFI_MULTICAST_STATE => "CHANGE_WIFI_MULTICAST_STATE",
            Permission::CHANGE_WIFI_STATE => "CHANGE_WIFI_STATE",
            Permission::CLEAR_APP_CACHE => "CLEAR_APP_CACHE",
            Permission::CONTROL_LOCATION_UPDATES => "CONTROL_LOCATION_UPDATES",
            Permission::DELETE_CACHE_FILES => "DELETE_CACHE_FILES",
            Permission::DELETE_PACKAGES => "DELETE_PACKAGES",
            Permission::DIAGNOSTIC => "DIAGNOSTIC",
            Permission::DISABLE_KEYGUARD => "DISABLE_KEYGUARD",
            Permission::DUMP => "DUMP",
            Permission::EXPAND_STATUS_BAR => "EXPAND_STATUS_BAR",
            Permission::FACTORY_TEST => "FACTORY_TEST",
            Permission::FOREGROUND_SERVICE => "FOREGROUND_SERVICE",
            Permission::GET_ACCOUNTS => "GET_ACCOUNTS",
            Permission::GET_ACCOUNTS_PRIVILEGED => "GET_ACCOUNTS_PRIVILEGED",
            Permission::GET_PACKAGE_SIZE => "GET_PACKAGE_SIZE",
            Permission::GET_TASKS => "GET_TASKS",
            Permission::GLOBAL_SEARCH => "GLOBAL_SEARCH",
            Permission::HIDE_OVERLAY_WINDOWS => "HIDE_OVERLAY_WINDOWS",
            Permission::HIGH_SAMPLING_RATE_SENSORS => "HIGH_SAMPLING_RATE_SENSORS",
            Permission::INSTALL_LOCATION_PROVIDER => "INSTALL_LOCATION_PROVIDER",
            Permission::INSTALL_PACKAGES => "INSTALL_PACKAGES",
            Permission::INSTALL_SHORTCUT => "INSTALL_SHORTCUT",
            Permission::INSTANT_APP_FOREGROUND_SERVICE => "INSTANT_APP_FOREGROUND_SERVICE",
            Permission::INTERACT_ACROSS_PROFILES => "INTERACT_ACROSS_PROFILES",
            Permission::INTERNET => "INTERNET",
            Permission::KILL_BACKGROUND_PROCESSES => "KILL_BACKGROUND_PROCESSES",
            Permission::LOADER_USAGE_STATS => "LOADER_USAGE_STATS",
            Permission::LOCATION_HARDWARE => "LOCATION_HARDWARE",
            Permission::MANAGE_DOCUMENTS => "MANAGE_DOCUMENTS",
            Permission::MANAGE_EXTERNAL_STORAGE => "MANAGE_EXTERNAL_STORAGE",
            Permission::MANAGE_ONGOING_CALLS => "MANAGE_ONGOING_CALLS",
            Permission::MANAGE_OWN_CALLS => "MANAGE_OWN_CALLS",
            Permission::MASTER_CLEAR => "MASTER_CLEAR",
            Permission::MEDIA_CONTENT_CONTROL => "MEDIA_CONTENT_CONTROL",
            Permission::MODIFY_AUDIO_SETTINGS => "MODIFY_AUDIO_SETTINGS",
            Permission::MODIFY_PHONE_STATE => "MODIFY_PHONE_STATE",
            Permission::MOUNT_FORMAT_FILESYSTEMS => "MOUNT_FORMAT_FILESYSTEMS",
            Permission::MOUNT_UNMOUNT_FILESYSTEMS => "MOUNT_UNMOUNT_FILESYSTEMS",
            Permission::NFC => "NFC",
            Permission::NFC_PREFERRED_PAYMENT_INFO => "NFC_PREFERRED_PAYMENT_INFO",
            Permission::NFC_TRANSACTION_EVENT => "NFC_TRANSACTION_EVENT",
            Permission::PACKAGE_USAGE_STATS => "PACKAGE_USAGE_STATS",
            Permission::PERSISTENT_ACTIVITY => "PERSISTENT_ACTIVITY",
            Permission::PROCESS_OUTGOING_CALLS => "PROCESS_OUTGOING_CALLS",
            Permission::QUERY_ALL_PACKAGES => "QUERY_ALL_PACKAGES",
            Permission::READ_CALENDAR => "READ_CALENDAR",
            Permission::READ_CALL_LOG => "READ_CALL_LOG",
            Permission::READ_CONTACTS => "READ_CONTACTS",
            Permission::READ_EXTERNAL_STORAGE => "READ_EXTERNAL_STORAGE",
            Permission::READ_INPUT_STATE => "READ_INPUT_STATE",
            Permission::READ_LOGS => "READ_LOGS",
            Permission::READ_PHONE_NUMBERS => "READ_PHONE_NUMBERS",
            Permission::READ_PHONE_STATE => "READ_PHONE_STATE",
            Permission::READ_PRECISE_PHONE_STATE => "READ_PRECISE_PHONE_STATE",
            Permission::READ_SMS => "READ_SMS",
            Permission::READ_SYNC_SETTINGS => "READ_SYNC_SETTINGS",
            Permission::READ_SYNC_STATS => "READ_SYNC_STATS",
            Permission::READ_VOICEMAIL => "READ_VOICEMAIL",
            Permission::REBOOT => "REBOOT",
            Permission::RECEIVE_BOOT_COMPLETED => "RECEIVE_BOOT_COMPLETED",
            Permission::RECEIVE_MMS => "RECEIVE_MMS",
            Permission::RECEIVE_SMS => "RECEIVE_SMS",
            Permission::RECEIVE_WAP_PUSH => "RECEIVE_WAP_PUSH",
            Permission::RECORD_AUDIO => "RECORD_AUDIO",
            Permission::REORDER_TASKS => "REORDER_TASKS",
            Permission::REQUEST_COMPANION_PROFILE_WATCH => "REQUEST_COMPANION_PROFILE_WATCH",
            Permission::REQUEST_COMPANION_RUN_IN_BACKGROUND => "REQUEST_COMPANION_RUN_IN_BACKGROUND",
            Permission::REQUEST_COMPANION_USE_DATA_IN_BACKGROUND => "REQUEST_COMPANION_USE_DATA_IN_BACKGROUND",
            Permission::REQUEST_DELETE_PACKAGES => "REQUEST_DELETE_PACKAGES",
            Permission::REQUEST_IGNORE_BATTERY_OPTIMIZATIONS => "REQUEST_IGNORE_BATTERY_OPTIMIZATIONS",
            Permission::REQUEST_INSTALL_PACKAGES => "REQUEST_INSTALL_PACKAGES",
            Permission::REQUEST_OBSERVE_COMPANION_DEVICE_PRESENCE => "REQUEST_OBSERVE_COMPANION_DEVICE_PRESENCE",
            Permission::REQUEST_PASSWORD_COMPLEXITY => "REQUEST_PASSWORD_COMPLEXITY",
            Permission::RESTART_PACKAGES => "RESTART_PACKAGES",
            Permission::SCHEDULE_EXACT_ALARM => "SCHEDULE_EXACT_ALARM",
            Permission::SEND_RESPOND_VIA_MESSAGE => "SEND_RESPOND_VIA_MESSAGE",
            Permission::SEND_SMS => "SEND_SMS",
            Permission::SET_ALARM => "SET_ALARM",
            Permission::SET_ALWAYS_FINISH => "SET_ALWAYS_FINISH",
            Permission::SET_ANIMATION_SCALE => "SET_ANIMATION_SCALE",
            Permission::SET_DEBUG_APP => "SET_DEBUG_APP",
            Permission::SET_PREFERRED_APPLICATIONS => "SET_PREFERRED_APPLICATIONS",
            Permission::SET_PROCESS_LIMIT => "SET_PROCESS_LIMIT",
            Permission::SET_TIME => "SET_TIME",
            Permission::SET_TIME_ZONE => "SET_TIME_ZONE",
            Permission::SET_WALLPAPER => "SET_WALLPAPER",
            Permission::SET_WALLPAPER_HINTS => "SET_WALLPAPER_HINTS",
            Permission::SIGNAL_PERSISTENT_PROCESSES => "SIGNAL_PERSISTENT_PROCESSES",
            Permission::SMS_FINANCIAL_TRANSACTIONS => "SMS_FINANCIAL_TRANSACTIONS",
            Permission::START_VIEW_PERMISSION_USAGE => "START_VIEW_PERMISSION_USAGE",
            Permission::STATUS_BAR => "STATUS_BAR",
            Permission::SYSTEM_ALERT_WINDOW => "SYSTEM_ALERT_WINDOW",
            Permission::TRANSMIT_IR => "TRANSMIT_IR",
            Permission::UNINSTALL_SHORTCUT => "UNINSTALL_SHORTCUT",
            Permission::UPDATE_DEVICE_STATS => "UPDATE_DEVICE_STATS",
            Permission::USE_BIOMETRIC => "USE_BIOMETRIC",
            Permission::USE_FINGERPRINT => "USE_FINGERPRINT",
            Permission::USE_FULL_SCREEN_INTENT => "USE_FULL_SCREEN_INTENT",
            Permission::USE_ICC_AUTH_WITH_DEVICE_IDENTIFIER => "USE_ICC_AUTH_WITH_DEVICE_IDENTIFIER",
            Permission::USE_SIP => "USE_SIP",
            Permission::VIBRATE => "VIBRATE",
            Permission::WAKE_LOCK => "WAKE_LOCK",
            Permission::WRITE_APN_SETTINGS => "WRITE_APN_SETTINGS",
            Permission::WRITE_CALENDAR => "WRITE_CALENDAR",
            Permission::WRITE_CALL_LOG => "WRITE_CALL_LOG",
            Permission::WRITE_CONTACTS => "WRITE_CONTACTS",
            Permission::WRITE_EXTERNAL_STORAGE => "WRITE_EXTERNAL_STORAGE",
            Permission::WRITE_GSERVICES => "WRITE_GSERVICES",
            Permission::WRITE_SECURE_SETTINGS => "WRITE_SECURE_SETTINGS",
            Permission::WRITE_SETTINGS => "WRITE_SETTINGS",
            Permission::WRITE_SYNC_SETTINGS => "WRITE_SYNC_SETTINGS",
            Permission::WRITE_VOICEMAIL => "WRITE_VOICEMAIL",
        }
    }

    /// The permission at a position of the listing.
    pub fn nth(i: usize) -> (r: Option<Permission>)
        ensures
            r == spec_nth(i),
    {
        proof {
            reveal(spec_nth);
        }
        match i {
            0 => Some(Permission::ACCEPT_HANDOVER),
            1 => Some(Permission::ACCESS_BACKGROUND_LOCATION),
            2 => Some(Permission::ACCESS_CHECKIN_PROPERTIES),
            3 => Some(Permission::ACCESS_COARSE_LOCATION),
            4 => Some(Permission::ACCESS_FINE_LOCATION),
            5 => Some(Permission::ACCESS_LOCATION_EXTRA_COMMANDS),
            6 => Some(Permission::ACCESS_MEDIA_LOCATION),
            7 => Some(Permission::ACCESS_NETWORK_STATE),
            8 => Some(Permission::ACCESS_NOTIFICATION_POLICY),
            9 => Some(Permission::ACCESS_WIFI_STATE),
            10 => Some(Permission::ACTIVITY_RECOGNITION),
            11 => Some(Permission::ADD_VOICEMAIL),
            12 => Some(Permission::ANSWER_PHONE_CALLS),
            13 => Some(Permission::BATTERY_STATS),
            14 => Some(Permission::BIND_ACCESSIBILITY_SERVICE),
            15 => Some(Permission::BIND_APPWIDGET),
            16 => Some(Permission::BIND_AUTOFILL_SERVICE),
            17 => Some(Permission::BIND_CALL_REDIRECTION_SERVICE),
            18 => Some(Permission::BIND_CARRIER_MESSAGING_CLIENT_SERVICE),
            19 => Some(Permission::BIND_CARRIER_MESSAGING_SERVICE),
            20 => Some(Permission::BIND_CARRIER_SERVICES),
            21 => Some(Permission::BIND_CHOOSER_TARGET_SERVICE),
            22 => Some(Permission::BIND_COMPANION_DEVICE_SERVICE),
            23 => Some(Permission::BIND_CONDITION_PROVIDER_SERVICE),
            24 => Some(Permission::BIND_CONTROLS),
            25 => Some(Permission::BIND_DEVICE_ADMIN),
            26 => Some(Permission::BIND_DREAM_SERVICE),
            27 => Some(Permission::BIND_INCALL_SERVICE),
            28 => Some(Permission::BIND_INPUT_METHOD),
            29 => Some(Permission::BIND_MIDI_DEVICE_SERVICE),
            30 => Some(Permission::BIND_NFC_SERVICE),
            31 => Some(Permission::BIND_NOTIFICATION_LISTENER_SERVICE),
            32 => Some(Permission::BIND_PRINT_SERVICE),
            33 => Some(Permission::BIND_QUICK_ACCESS_WALLET_SERVICE),
            34 => Some(Permission::BIND_QUICK_SETTINGS_TILE),
            35 => Some(Permission::BIND_REMOTEVIEWS),
            36 => Some(Permission::BIND_SCREENING_SERVICE),
            37 => Some(Permission::BIND_TELECOM_CONNECTION_SERVICE),
            38 => Some(Permission::BIND_TEXT_SERVICE),
            39 => Some(Permission::BIND_TV_INPUT),
            40 => Some(Permission::BIND_VISUAL_VOICEMAIL_SERVICE),
            41 => Some(Permission::BIND_VOICE_INTERACTION),
            42 => Some(Permission::BIND_VPN_SERVICE),
            43 => Some(Permission::BIND_VR_LISTENER_SERVICE),
            44 => Some(Permission::BIND_WALLPAPER),
            45 => Some(Permission::BLUETOOTH),
            46 => Some(Permission::BLUETOOTH_ADMIN),
            47 => Some(Permission::BLUETOOTH_PRIVILEGED),
            48 => Some(Permission::BODY_SENSORS),
            49 => Some(Permission::BROADCAST_PACKAGE_REMOVED),
            50 => Some(Permission::BROADCAST_SMS),
            51 => Some(Permission::BROADCAST_STICKY),
            52 => Some(Permission::BROADCAST_WAP_PUSH),
            53 => Some(Permission::CALL_COMPANION_APP),
            54 => Some(Permission::CALL_PHONE),
            55 => Some(Permission::CALL_PRIVILEGED),
            56 => Some(Permission::CAMERA),
            57 => Some(Permission::CAPTURE_AUDIO_OUTPUT),
            58 => Some(Permission::CHANGE_COMPONENT_ENABLED_STATE),
            59 => Some(Permission::CHANGE_CONFIGURATION),
            60 => Some(Permission::CHANGE_NETWORK_STATE),
            61 => Some(Permission::CHANGE_WIFI_MULTICAST_STATE),
            62 => Some(Permission::CHANGE_WIFI_STATE),
            63 => Some(Permission::CLEAR_APP_CACHE),
            64 => Some(Permission::CONTROL_LOCATION_UPDATES),
            65 => Some(Permission::DELETE_CACHE_FILES),
            66 => Some(Permission::DELETE_PACKAGES),
            67 => Some(Permission::DIAGNOSTIC),
            68 => Some(Permission::DISABLE_KEYGUARD),
            69 => Some(Permission::DUMP),
            70 => Some(Permission::EXPAND_STATUS_BAR),
            71 => Some(Permission::FACTORY_TEST),
            72 => Some(Permission::FOREGROUND_SERVICE),
            73 => Some(Permission::GET_ACCOUNTS),
            74 => Some(Permission::GET_ACCOUNTS_PRIVILEGED),
            75 => Some(Permission::GET_PACKAGE_SIZE),
            76 => Some(Permission::GET_TASKS),
            77 => Some(Permission::GLOBAL_SEARCH),
            78 => Some(Permission::HIDE_OVERLAY_WINDOWS),
            79 => Some(Permission::HIGH_SAMPLING_RATE_SENSORS),
            80 => Some(Permission::INSTALL_LOCATION_PROVIDER),
            81 => Some(Permission::INSTALL_PACKAGES),
            82 => Some(Permission::INSTALL_SHORTCUT),
            83 => Some(Permission::INSTANT_APP_FOREGROUND_SERVICE),
            84 => Some(Permission::INTERACT_ACROSS_PROFILES),
            85 => Some(Permission::INTERNET),
            86 => Some(Permission::KILL_BACKGROUND_PROCESSES),
            87 => Some(Permission::LOADER_USAGE_STATS),
            88 => Some(Permission::LOCATION_HARDWARE),
            89 => Some(Permission::MANAGE_DOCUMENTS),
            90 => Some(Permission::MANAGE_EXTERNAL_STORAGE),
            91 => Some(Permission::MANAGE_ONGOING_CALLS),
            92 => Some(Permission::MANAGE_OWN_CALLS),
            93 => Some(Permission::MASTER_CLEAR),
            94 => Some(Permission::MEDIA_CONTENT_CONTROL),
            95 => Some(Permission::MODIFY_AUDIO_SETTINGS),
            96 => Some(Permission::MODIFY_PHONE_STATE),
            97 => Some(Permission::MOUNT_FORMAT_FILESYSTEMS),
            98 => Some(Permission::MOUNT_UNMOUNT_FILESYSTEMS),
            99 => Some(Permission::NFC),
            100 => Some(Permission::NFC_PREFERRED_PAYMENT_INFO),
            101 => Some(Permission::NFC_TRANSACTION_EVENT),
            102 => Some(Permission::PACKAGE_USAGE_STATS),
            103 => Some(Permission::PERSISTENT_ACTIVITY),
            104 => Some(Permission::PROCESS_OUTGOING_CALLS),
            105 => Some(Permission::QUERY_ALL_PACKAGES),
            106 => Some(Permission::READ_CALENDAR),
            107 => Some(Permission::READ_CALL_LOG),
            108 => Some(Permission::READ_CONTACTS),
            109 => Some(Permission::READ_EXTERNAL_STORAGE),
            110 => Some(Permission::READ_INPUT_STATE),
            111 => Some(Permission::READ_LOGS),
            112 => Some(Permission::READ_PHONE_NUMBERS),
            113 => Some(Permission::READ_PHONE_STATE),
            114 => Some(Permission::READ_PRECISE_PHONE_STATE),
            115 => Some(Permission::READ_SMS),
            116 => Some(Permission::READ_SYNC_SETTINGS),
            117 => Some(Permission::READ_SYNC_STATS),
            118 => Some(Permission::READ_VOICEMAIL),
            119 => Some(Permission::REBOOT),
            120 => Some(Permission::RECEIVE_BOOT_COMPLETED),
            121 => Some(Permission::RECEIVE_MMS),
            122 => Some(Permission::RECEIVE_SMS),
            123 => Some(Permission::RECEIVE_WAP_PUSH),
            124 => Some(Permission::RECORD_AUDIO),
            125 => Some(Permission::REORDER_TASKS),
            126 => Some(Permission::REQUEST_COMPANION_PROFILE_WATCH),
            127 => Some(Permission::REQUEST_COMPANION_RUN_IN_BACKGROUND),
            128 => Some(Permission::REQUEST_COMPANION_USE_DATA_IN_BACKGROUND),
            129 => Some(Permission::REQUEST_DELETE_PACKAGES),
            130 => Some(Permission::REQUEST_IGNORE_BATTERY_OPTIMIZATIONS),
            131 => Some(Permission::REQUEST_INSTALL_PACKAGES),
            132 => Some(Permission::REQUEST_OBSERVE_COMPANION_DEVICE_PRESENCE),
            133 => Some(Permission::REQUEST_PASSWORD_COMPLEXITY),
            134 => Some(Permission::RESTART_PACKAGES),
            135 => Some(Permission::SCHEDULE_EXACT_ALARM),
            136 => Some(Permission::SEND_RESPOND_VIA_MESSAGE),
            137 => Some(Permission::SEND_SMS),
            138 => Some(Permission::SET_ALARM),
            139 => Some(Permission::SET_ALWAYS_FINISH),
            140 => Some(Permission::SET_ANIMATION_SCALE),
            141 => Some(Permission::SET_DEBUG_APP),
            142 => Some(Permission::SET_PREFERRED_APPLICATIONS),
            143 => Some(Permission::SET_PROCESS_LIMIT),
            144 => Some(Permission::SET_TIME),
            145 => Some(Permission::SET_TIME_ZONE),
            146 => Some(Permission::SET_WALLPAPER),
            147 => Some(Permission::SET_WALLPAPER_HINTS),
            148 => Some(Permission::SIGNAL_PERSISTENT_PROCESSES),
            149 => Some(Permission::SMS_FINANCIAL_TRANSACTIONS),
            150 => Some(Permission::START_VIEW_PERMISSION_USAGE),
            151 => Some(Permission::STATUS_BAR),
            152 => Some(Permission::SYSTEM_ALERT_WINDOW),
            153 => Some(Permission::TRANSMIT_IR),
            154 => Some(Permission::UNINSTALL_SHORTCUT),
            155 => Some(Permission::UPDATE_DEVICE_STATS),
            156 => Some(Permission::USE_BIOMETRIC),
            157 => Some(Permission::USE_FINGERPRINT),
            158 => Some(Permission::USE_FULL_SCREEN_INTENT),
            159 => Some(Permission::USE_ICC_AUTH_WITH_DEVICE_IDENTIFIER),
            160 => Some(Permission::USE_SIP),
            161 => Some(Permission::VIBRATE),
            162 => Some(Permission::WAKE_LOCK),
            163 => Some(Permission::WRITE_APN_SETTINGS),
            164 => Some(Permission::WRITE_CALENDAR),
            165 => Some(Permission::WRITE_CALL_LOG),
            166 => Some(Permission::WRITE_CONTACTS),
            167 => Some(Permission::WRITE_EXTERNAL_STORAGE),
            168 => Some(Permission::WRITE_GSERVICES),
            169 => Some(Permission::WRITE_SECURE_SETTINGS),
            170 => Some(Permission::WRITE_SETTINGS),
            171 => Some(Permission::WRITE_SYNC_SETTINGS),
            172 => Some(Permission::WRITE_VOICEMAIL),
            _ => None,
        }
    }

    /// Looks a short name up in the vocabulary, by exact, case-sensitive
    /// equality.
    pub fn from_name(s: &str) -> (r: Option<Permission>)
        ensures
            forall|p: Permission| (r == Some(p)) <==> #[trigger] p.spec_name() == s@,
    {
        let mut i: usize = 0;
        while i < PERMISSION_COUNT
            invariant
                i <= PERMISSION_COUNT,
                forall|j: usize|
                    j < i ==> (#[trigger] spec_nth(j) matches Some(q) ==> q.spec_name() != s@),
            decreases PERMISSION_COUNT - i,
        {
            if let Some(p) = Permission::nth(i) {
                if str_eq(p.as_str(), s) {
                    proof {
                        assert forall|q: Permission| #[trigger] q.spec_name() == s@ implies q == p by {
                            lemma_names_distinct(p, q);
                        }
                    }
                    return Some(p);
                }
            }
            i = i + 1;
        }
        proof {
            assert forall|p: Permission| p.spec_name() != s@ by {
                p.lemma_listed();
                assert(spec_nth(p.spec_ordinal()) matches Some(q) ==> q.spec_name() != s@);
            }
        }
        None
    }

    /// Normalises a requested permission string: `android.permission.` followed
    /// by the short name of a platform permission yields that permission; any
    /// other string (a custom permission, another spelling) yields nothing.
    pub fn from_manifest_string(s: &str) -> (r: Option<Permission>)
        ensures
            forall|p: Permission| (r == Some(p)) <==> s@ == platform_prefix() + #[trigger] p.spec_name(),
    {
        let prefix = "android.permission.";
        proof {
            reveal_strlit("android.permission.");
        }
        let k = prefix.unicode_len();
        let n = s.unicode_len();
        if n < k {
            proof {
                assert forall|p: Permission| s@ != platform_prefix() + p.spec_name() by {
                    assert((platform_prefix() + p.spec_name()).len() >= k);
                }
            }
            return None;
        }
        let head = s.substring_char(0, k);
        let tail = s.substring_char(k, n);
        assert(s@ =~= head@ + tail@);
        if !str_eq(head, prefix) {
            proof {
                assert forall|p: Permission| s@ != platform_prefix() + p.spec_name() by {
                    if s@ == platform_prefix() + p.spec_name() {
                        assert(head@ =~= s@.subrange(0, k as int));
                        assert(s@.subrange(0, k as int) =~= platform_prefix());
                    }
                }
            }
            return None;
        }
        let r = Permission::from_name(tail);
        proof {
            assert forall|p: Permission| s@ == platform_prefix() + p.spec_name() <==> p.spec_name()
                == tail@ by {
                assert(head@ == platform_prefix());
                if s@ == platform_prefix() + p.spec_name() {
                    assert(tail@ =~= s@.subrange(k as int, n as int));
                    assert(s@.subrange(k as int, n as int) =~= p.spec_name());
                }
                if p.spec_name() == tail@ {
                    assert(s@ =~= platform_prefix() + p.spec_name());
                }
            }
        }
        r
    }
}

} // verus!
