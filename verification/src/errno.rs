//! Linux error numbers and the diagnostics that name them.
use vstd::prelude::*;
use vstd::utf8::encode_utf8;

verus! {

/// A Linux error number.
///
/// See `errno(3)` for the list of error codes and their meanings.
#[derive(PartialEq, Eq, Debug, Structural)]
pub struct Errno(pub u16);

pub const EPERM: u16 = 1;
pub const ENOENT: u16 = 2;
pub const ESRCH: u16 = 3;
pub const EINTR: u16 = 4;
pub const EIO: u16 = 5;
pub const ENXIO: u16 = 6;
pub const E2BIG: u16 = 7;
pub const ENOEXEC: u16 = 8;
pub const EBADF: u16 = 9;
pub const ECHILD: u16 = 10;
pub const EAGAIN: u16 = 11;
pub const ENOMEM: u16 = 12;
pub const EACCES: u16 = 13;
pub const EFAULT: u16 = 14;
pub const ENOTBLK: u16 = 15;
pub const EBUSY: u16 = 16;
pub const EEXIST: u16 = 17;
pub const EXDEV: u16 = 18;
pub const ENODEV: u16 = 19;
pub const ENOTDIR: u16 = 20;
pub const EISDIR: u16 = 21;
pub const EINVAL: u16 = 22;
pub const ENFILE: u16 = 23;
pub const EMFILE: u16 = 24;
pub const ENOTTY: u16 = 25;
pub const ETXTBSY: u16 = 26;
pub const EFBIG: u16 = 27;
pub const ENOSPC: u16 = 28;
pub const ESPIPE: u16 = 29;
pub const EROFS: u16 = 30;
pub const EMLINK: u16 = 31;
pub const EPIPE: u16 = 32;
pub const EDOM: u16 = 33;
pub const ERANGE: u16 = 34;
pub const EDEADLK: u16 = 35;
pub const ENAMETOOLONG: u16 = 36;
pub const ENOLCK: u16 = 37;
pub const ENOSYS: u16 = 38;
pub const ENOTEMPTY: u16 = 39;
pub const ELOOP: u16 = 40;
pub const ENOMSG: u16 = 42;
pub const EIDRM: u16 = 43;
pub const ECHRNG: u16 = 44;
pub const EL2NSYNC: u16 = 45;
pub const EL3HLT: u16 = 46;
pub const EL3RST: u16 = 47;
pub const ELNRNG: u16 = 48;
pub const EUNATCH: u16 = 49;
pub const ENOCSI: u16 = 50;
pub const EL2HLT: u16 = 51;
pub const EBADE: u16 = 52;
pub const EBADR: u16 = 53;
pub const ENOANO: u16 = 55;
pub const EBADRQC: u16 = 56;
pub const EBADSLT: u16 = 57;
pub const EBFONT: u16 = 59;
pub const ENOSTR: u16 = 60;
pub const ENODATA: u16 = 61;
pub const ETIME: u16 = 62;
pub const ENOSR: u16 = 63;
pub const ENONET: u16 = 64;
pub const ENOPKG: u16 = 65;
pub const EREMOTE: u16 = 66;
pub const ENOLINK: u16 = 67;
pub const EADV: u16 = 68;
pub const ESRMNT: u16 = 69;
pub const ECOMM: u16 = 70;
pub const EPROTO: u16 = 71;
pub const EMULTIHOP: u16 = 72;
pub const EDOTDOT: u16 = 73;
pub const EBADMSG: u16 = 74;
pub const EOVERFLOW: u16 = 75;
pub const ENOTUNIQ: u16 = 76;
pub const EBADFD: u16 = 77;
pub const EREMCHG: u16 = 78;
pub const ELIBACC: u16 = 79;
pub const ELIBBAD: u16 = 80;
pub const ELIBSCN: u16 = 81;
pub const ELIBMAX: u16 = 82;
pub const ELIBEXEC: u16 = 83;
pub const EILSEQ: u16 = 84;
pub const ERESTART: u16 = 85;
pub const ESTRPIPE: u16 = 86;
pub const EUSERS: u16 = 87;
pub const ENOTSOCK: u16 = 88;
pub const EDESTADDRREQ: u16 = 89;
pub const EMSGSIZE: u16 = 90;
pub const EPROTOTYPE: u16 = 91;
pub const ENOPROTOOPT: u16 = 92;
pub const EPROTONOSUPPORT: u16 = 93;
pub const ESOCKTNOSUPPORT: u16 = 94;
pub const EOPNOTSUPP: u16 = 95;
pub const EPFNOSUPPORT: u16 = 96;
pub const EAFNOSUPPORT: u16 = 97;
pub const EADDRINUSE: u16 = 98;
pub const EADDRNOTAVAIL: u16 = 99;
pub const ENETDOWN: u16 = 100;
pub const ENETUNREACH: u16 = 101;
pub const ENETRESET: u16 = 102;
pub const ECONNABORTED: u16 = 103;
pub const ECONNRESET: u16 = 104;
pub const ENOBUFS: u16 = 105;
pub const EISCONN: u16 = 106;
pub const ENOTCONN: u16 = 107;
pub const ESHUTDOWN: u16 = 108;
pub const ETOOMANYREFS: u16 = 109;
pub const ETIMEDOUT: u16 = 110;
pub const ECONNREFUSED: u16 = 111;
pub const EHOSTDOWN: u16 = 112;
pub const EHOSTUNREACH: u16 = 113;
pub const EALREADY: u16 = 114;
pub const EINPROGRESS: u16 = 115;
pub const ESTALE: u16 = 116;
pub const EUCLEAN: u16 = 117;
pub const ENOTNAM: u16 = 118;
pub const ENAVAIL: u16 = 119;
pub const EISNAM: u16 = 120;
pub const EREMOTEIO: u16 = 121;
pub const EDQUOT: u16 = 122;
pub const ENOMEDIUM: u16 = 123;
pub const EMEDIUMTYPE: u16 = 124;
pub const ECANCELED: u16 = 125;
pub const ENOKEY: u16 = 126;
pub const EKEYEXPIRED: u16 = 127;
pub const EKEYREVOKED: u16 = 128;
pub const EKEYREJECTED: u16 = 129;
pub const EOWNERDEAD: u16 = 130;
pub const ENOTRECOVERABLE: u16 = 131;
pub const ERFKILL: u16 = 132;

/// Another name for [`EAGAIN`].
pub const EWOULDBLOCK: u16 = EAGAIN;

/// Another name for [`EDEADLK`].
pub const EDEADLOCK: u16 = EDEADLK;

/// Another name for [`EOPNOTSUPP`].
pub const ENOTSUP: u16 = EOPNOTSUPP;

/// The text given for a number that has no entry in the table.
pub open spec fn unknown_cause_text() -> Seq<char> {
    "不明なエラー"@
}

/// Whether `number` has an entry of its own in the table of causes:
/// every number from 1 to 132 except 41, 54 and 58.
pub open spec fn is_known(number: u16) -> bool {
    1 <= number <= 132 && number != 41 && number != 54 && number != 58
}

/// The Japanese description of the error number `number`.
pub open spec fn cause_text(number: u16) -> Seq<char> {
    match number {
        1 => "許可されていない操作です"@,
        2 => "そのようなファイルやディレクトリはありません"@,
        3 => "そのようなプロセスはありません"@,
        4 => "システムコール割り込み"@,
        5 => "入力/出力エラーです"@,
        6 => "そのようなデバイスやアドレスはありません"@,
        7 => "引数リストが長すぎます"@,
        8 => "実行形式エラー"@,
        9 => "不正なファイル記述子です"@,
        10 => "子プロセスがありません"@,
        11 => "リソースが一時的に利用できません"@,
        12 => "メモリを確保できません"@,
        13 => "許可がありません"@,
        14 => "不正なアドレスです"@,
        15 => "ブロックデバイスが必要です"@,
        16 => "デバイスもしくはリソースがビジー状態です"@,
        17 => "ファイルが存在します"@,
        18 => "無効なクロスデバイスリンクです"@,
        19 => "そのようなデバイスはありません"@,
        20 => "ディレクトリではありません"@,
        21 => "ディレクトリです"@,
        22 => "無効な引数です"@,
        23 => "システム中のファイルを開きすぎです"@,
        24 => "ファイルを開きすぎです"@,
        25 => "デバイスに対する不適切なioctlです"@,
        26 => "テキストファイルがビジー状態です"@,
        27 => "ファイルが大きすぎます"@,
        28 => "デバイスに空き領域がありません"@,
        29 => "不正なシークです"@,
        30 => "読み込み専用ファイルシステムです"@,
        31 => "リンクが多すぎます"@,
        32 => "壊れたパイプです"@,
        33 => "数値の引数はドメイン外です"@,
        34 => "計算結果は範囲外の値です"@,
        35 => "リソースのデッドロック回避"@,
        36 => "ファイル名が長すぎます"@,
        37 => "ロックが利用できません"@,
        38 => "関数は実装されていません"@,
        39 => "ディレクトリは空ではありません"@,
        40 => "シンボリックリンクの階層が多すぎます"@,
        42 => "要求した形式のメッセージはありません"@,
        43 => "識別子を除去しました"@,
        44 => "チャンネル番号が範囲外です"@,
        45 => "レベル2は同期していません"@,
        46 => "レベル3停止"@,
        47 => "レベル3はリセットしました"@,
        48 => "リンク数が範囲外です"@,
        49 => "プロトコルドライバがアタッチされていません"@,
        50 => "CSI 構造が利用できません"@,
        51 => "レベル2停止"@,
        52 => "無効な交換です"@,
        53 => "無効なリクエスト記述子です"@,
        55 => "アノードがありません"@,
        56 => "無効なリクエストコードです"@,
        57 => "無効なスロットです"@,
        59 => "不正なフォントファイル形式です"@,
        60 => "デバイスはストリーム型ではありません"@,
        61 => "利用可能なデータがありません"@,
        62 => "タイマが破棄されました"@,
        63 => "ストリームリソース外です"@,
        64 => "マシンはネットワークにつながっていません"@,
        65 => "パッケージはインストールされていません"@,
        66 => "オブジェクトはリモートにあります"@,
        67 => "リンクが切れています"@,
        68 => "Advertiseエラー"@,
        69 => "Srmount エラー"@,
        70 => "送信中の通信エラー"@,
        71 => "プロトコルエラー"@,
        72 => "多重ホップが企てられました"@,
        73 => "RFS特定エラー"@,
        74 => "不正なメッセージです"@,
        75 => "定義されたデータ型に対して値が大きすぎます"@,
        76 => "名前がネットワーク上で重複しています"@,
        77 => "ファイル記述子が不正の状態にあります"@,
        78 => "遠隔アドレスが変更されました"@,
        79 => "必要な共有ライブラリにアクセスできません"@,
        80 => "壊れた共有ライブラリにアクセスしています"@,
        81 => "a.out 中の .lib セクションが壊れています"@,
        82 => "あまりに多過ぎる共有ライブラリへリンクしようとしています"@,
        83 => "共有ライブラリは直接実行できません"@,
        84 => "無効または不完全なマルチバイトまたはワイド文字です"@,
        85 => "割り込まれたシステムコールは再スタートさせるべきです"@,
        86 => "ストリームパイプエラー"@,
        87 => "ユーザが多すぎます"@,
        88 => "ソケットでないものにソケット操作をしています"@,
        89 => "送信先アドレスが必要です"@,
        90 => "メッセージが長すぎます"@,
        91 => "ソケットに対し間違ったプロトコルの形式です"@,
        92 => "プロトコルは利用できません"@,
        93 => "プロトコルはサポートされていません"@,
        94 => "ソケット形式はサポートしていません"@,
        95 => "サポートされていない操作です"@,
        96 => "プロトコルファミリはサポートしていません"@,
        97 => "アドレスファミリはプロトコルによってサポートされていません"@,
        98 => "アドレスは既に使用中です"@,
        99 => "要求アドレスに割り当てられません"@,
        100 => "ネットワークが落ちています"@,
        101 => "ネットワークに届きません"@,
        102 => "リセット中ネットワークの接続が切れました"@,
        103 => "ソフトウェアが接続を中断しました"@,
        104 => "接続が相手からリセットされました"@,
        105 => "利用可能な空きバッファがありません"@,
        106 => "通信端点が既に接続されています"@,
        107 => "通信端点が接続されていません"@,
        108 => "通信端点のシャットダウン後は送信できません"@,
        109 => "参照が多すぎます: 接続できません"@,
        110 => "接続がタイムアウトしました"@,
        111 => "接続を拒否されました"@,
        112 => "ホストが落ちています"@,
        113 => "ホストへの経路がありません"@,
        114 => "操作はすでに処理中です"@,
        115 => "現在処理中の操作です"@,
        116 => "古いファイルハンドルです"@,
        117 => "構造体を内容消去する必要があります"@,
        118 => "XENIX の名前付きファイルではありません"@,
        119 => "XENIX セマフォが利用できません"@,
        120 => "名前付きファイルです"@,
        121 => "遠隔I/Oエラーです"@,
        122 => "ディスク使用量制限を超過しました"@,
        123 => "メディアが見つかりません"@,
        124 => "不正なメディア形式です"@,
        125 => "操作は中断されました"@,
        126 => "要求されたキーが利用できません"@,
        127 => "キーが期限切れです"@,
        128 => "キーが破棄されています"@,
        129 => "キーがサービスによって拒否されました"@,
        130 => "所有者が無くなりました"@,
        131 => "状態の復帰が出来ません"@,
        132 => "RF-kill のため操作は不可能です"@,
        _ => unknown_cause_text(),
    }
}

/// The UTF-8 bytes of [`cause_text`].
pub open spec fn cause_bytes(number: u16) -> Seq<u8> {
    encode_utf8(cause_text(number))
}

impl Errno {
    /// The UTF-8 encoded Japanese description of this error.
    pub fn cause(&self) -> (text: &'static [u8])
        ensures
            text@ == cause_bytes(self.0),
    {
        match self.0 {
            1 => "許可されていない操作です".as_bytes(),
            2 => "そのようなファイルやディレクトリはありません".as_bytes(),
            3 => "そのようなプロセスはありません".as_bytes(),
            4 => "システムコール割り込み".as_bytes(),
            5 => "入力/出力エラーです".as_bytes(),
            6 => "そのようなデバイスやアドレスはありません".as_bytes(),
            7 => "引数リストが長すぎます".as_bytes(),
            8 => "実行形式エラー".as_bytes(),
            9 => "不正なファイル記述子です".as_bytes(),
            10 => "子プロセスがありません".as_bytes(),
            11 => "リソースが一時的に利用できません".as_bytes(),
            12 => "メモリを確保できません".as_bytes(),
            13 => "許可がありません".as_bytes(),
            14 => "不正なアドレスです".as_bytes(),
            15 => "ブロックデバイスが必要です".as_bytes(),
            16 => "デバイスもしくはリソースがビジー状態です".as_bytes(),
            17 => "ファイルが存在します".as_bytes(),
            18 => "無効なクロスデバイスリンクです".as_bytes(),
            19 => "そのようなデバイスはありません".as_bytes(),
            20 => "ディレクトリではありません".as_bytes(),
            21 => "ディレクトリです".as_bytes(),
            22 => "無効な引数です".as_bytes(),
            23 => "システム中のファイルを開きすぎです".as_bytes(),
            24 => "ファイルを開きすぎです".as_bytes(),
            25 => "デバイスに対する不適切なioctlです".as_bytes(),
            26 => "テキストファイルがビジー状態です".as_bytes(),
            27 => "ファイルが大きすぎます".as_bytes(),
            28 => "デバイスに空き領域がありません".as_bytes(),
            29 => "不正なシークです".as_bytes(),
            30 => "読み込み専用ファイルシステムです".as_bytes(),
            31 => "リンクが多すぎます".as_bytes(),
            32 => "壊れたパイプです".as_bytes(),
            33 => "数値の引数はドメイン外です".as_bytes(),
            34 => "計算結果は範囲外の値です".as_bytes(),
            35 => "リソースのデッドロック回避".as_bytes(),
            36 => "ファイル名が長すぎます".as_bytes(),
            37 => "ロックが利用できません".as_bytes(),
            38 => "関数は実装されていません".as_bytes(),
            39 => "ディレクトリは空ではありません".as_bytes(),
            40 => "シンボリックリンクの階層が多すぎます".as_bytes(),
            42 => "要求した形式のメッセージはありません".as_bytes(),
            43 => "識別子を除去しました".as_bytes(),
            44 => "チャンネル番号が範囲外です".as_bytes(),
            45 => "レベル2は同期していません".as_bytes(),
            46 => "レベル3停止".as_bytes(),
            47 => "レベル3はリセットしました".as_bytes(),
            48 => "リンク数が範囲外です".as_bytes(),
            49 => "プロトコルドライバがアタッチされていません".as_bytes(),
            50 => "CSI 構造が利用できません".as_bytes(),
            51 => "レベル2停止".as_bytes(),
            52 => "無効な交換です".as_bytes(),
            53 => "無効なリクエスト記述子です".as_bytes(),
            55 => "アノードがありません".as_bytes(),
            56 => "無効なリクエストコードです".as_bytes(),
            57 => "無効なスロットです".as_bytes(),
            59 => "不正なフォントファイル形式です".as_bytes(),
            60 => "デバイスはストリーム型ではありません".as_bytes(),
            61 => "利用可能なデータがありません".as_bytes(),
            62 => "タイマが破棄されました".as_bytes(),
            63 => "ストリームリソース外です".as_bytes(),
            64 => "マシンはネットワークにつながっていません".as_bytes(),
            65 => "パッケージはインストールされていません".as_bytes(),
            66 => "オブジェクトはリモートにあります".as_bytes(),
            67 => "リンクが切れています".as_bytes(),
            68 => "Advertiseエラー".as_bytes(),
            69 => "Srmount エラー".as_bytes(),
            70 => "送信中の通信エラー".as_bytes(),
            71 => "プロトコルエラー".as_bytes(),
            72 => "多重ホップが企てられました".as_bytes(),
            73 => "RFS特定エラー".as_bytes(),
            74 => "不正なメッセージです".as_bytes(),
            75 => "定義されたデータ型に対して値が大きすぎます".as_bytes(),
            76 => "名前がネットワーク上で重複しています".as_bytes(),
            77 => "ファイル記述子が不正の状態にあります".as_bytes(),
            78 => "遠隔アドレスが変更されました".as_bytes(),
            79 => "必要な共有ライブラリにアクセスできません".as_bytes(),
            80 => "壊れた共有ライブラリにアクセスしています".as_bytes(),
            81 => "a.out 中の .lib セクションが壊れています".as_bytes(),
            82 => "あまりに多過ぎる共有ライブラリへリンクしようとしています".as_bytes(),
            83 => "共有ライブラリは直接実行できません".as_bytes(),
            84 => "無効または不完全なマルチバイトまたはワイド文字です".as_bytes(),
            85 => "割り込まれたシステムコールは再スタートさせるべきです".as_bytes(),
            86 => "ストリームパイプエラー".as_bytes(),
            87 => "ユーザが多すぎます".as_bytes(),
            88 => "ソケットでないものにソケット操作をしています".as_bytes(),
            89 => "送信先アドレスが必要です".as_bytes(),
            90 => "メッセージが長すぎます".as_bytes(),
            91 => "ソケットに対し間違ったプロトコルの形式です".as_bytes(),
            92 => "プロトコルは利用できません".as_bytes(),
            93 => "プロトコルはサポートされていません".as_bytes(),
            94 => "ソケット形式はサポートしていません".as_bytes(),
            95 => "サポートされていない操作です".as_bytes(),
            96 => "プロトコルファミリはサポートしていません".as_bytes(),
            97 => "アドレスファミリはプロトコルによってサポートされていません".as_bytes(),
            98 => "アドレスは既に使用中です".as_bytes(),
            99 => "要求アドレスに割り当てられません".as_bytes(),
            100 => "ネットワークが落ちています".as_bytes(),
            101 => "ネットワークに届きません".as_bytes(),
            102 => "リセット中ネットワークの接続が切れました".as_bytes(),
            103 => "ソフトウェアが接続を中断しました".as_bytes(),
            104 => "接続が相手からリセットされました".as_bytes(),
            105 => "利用可能な空きバッファがありません".as_bytes(),
            106 => "通信端点が既に接続されています".as_bytes(),
            107 => "通信端点が接続されていません".as_bytes(),
            108 => "通信端点のシャットダウン後は送信できません".as_bytes(),
            109 => "参照が多すぎます: 接続できません".as_bytes(),
            110 => "接続がタイムアウトしました".as_bytes(),
            111 => "接続を拒否されました".as_bytes(),
            112 => "ホストが落ちています".as_bytes(),
            113 => "ホストへの経路がありません".as_bytes(),
            114 => "操作はすでに処理中です".as_bytes(),
            115 => "現在処理中の操作です".as_bytes(),
            116 => "古いファイルハンドルです".as_bytes(),
            117 => "構造体を内容消去する必要があります".as_bytes(),
            118 => "XENIX の名前付きファイルではありません".as_bytes(),
            119 => "XENIX セマフォが利用できません".as_bytes(),
            120 => "名前付きファイルです".as_bytes(),
            121 => "遠隔I/Oエラーです".as_bytes(),
            122 => "ディスク使用量制限を超過しました".as_bytes(),
            123 => "メディアが見つかりません".as_bytes(),
            124 => "不正なメディア形式です".as_bytes(),
            125 => "操作は中断されました".as_bytes(),
            126 => "要求されたキーが利用できません".as_bytes(),
            127 => "キーが期限切れです".as_bytes(),
            128 => "キーが破棄されています".as_bytes(),
            129 => "キーがサービスによって拒否されました".as_bytes(),
            130 => "所有者が無くなりました".as_bytes(),
            131 => "状態の復帰が出来ません".as_bytes(),
            132 => "RF-kill のため操作は不可能です".as_bytes(),
            _ => "不明なエラー".as_bytes(),
        }
    }

    /// Whether this number has no description of its own.
    pub fn is_unknown(&self) -> (unknown: bool)
        ensures
            unknown == !is_known(self.0),
    {
        let n = self.0;
        !(1 <= n && n <= 132 && n != 41 && n != 54 && n != 58)
    }
}

/// A number has the description given for unknown numbers exactly when it
/// has no entry of its own: [`Errno::cause`] and [`Errno::is_unknown`]
/// agree.
pub proof fn lemma_unknown_cause_iff_not_known(number: u16)
    ensures
        (cause_text(number) == unknown_cause_text()) <==> !is_known(number),
{
    reveal_strlit("不明なエラー");
    if is_known(number) {
        let text = cause_text(number);
        assert(text.len() >= 2 && (text[0] != unknown_cause_text()[0] || text[1]
            != unknown_cause_text()[1])) by {
            reveal_strlit("許可されていない操作です");
            reveal_strlit("そのようなファイルやディレクトリはありません");
            reveal_strlit("そのようなプロセスはありません");
            reveal_strlit("システムコール割り込み");
            reveal_strlit("入力/出力エラーです");
            reveal_strlit("そのようなデバイスやアドレスはありません");
            reveal_strlit("引数リストが長すぎます");
            reveal_strlit("実行形式エラー");
            reveal_strlit("不正なファイル記述子です");
            reveal_strlit("子プロセスがありません");
            reveal_strlit("リソースが一時的に利用できません");
            reveal_strlit("メモリを確保できません");
            reveal_strlit("許可がありません");
            reveal_strlit("不正なアドレスです");
            reveal_strlit("ブロックデバイスが必要です");
            reveal_strlit("デバイスもしくはリソースがビジー状態です");
            reveal_strlit("ファイルが存在します");
            reveal_strlit("無効なクロスデバイスリンクです");
            reveal_strlit("そのようなデバイスはありません");
            reveal_strlit("ディレクトリではありません");
            reveal_strlit("ディレクトリです");
            reveal_strlit("無効な引数です");
            reveal_strlit("システム中のファイルを開きすぎです");
            reveal_strlit("ファイルを開きすぎです");
            reveal_strlit("デバイスに対する不適切なioctlです");
            reveal_strlit("テキストファイルがビジー状態です");
            reveal_strlit("ファイルが大きすぎます");
            reveal_strlit("デバイスに空き領域がありません");
            reveal_strlit("不正なシークです");
            reveal_strlit("読み込み専用ファイルシステムです");
            reveal_strlit("リンクが多すぎます");
            reveal_strlit("壊れたパイプです");
            reveal_strlit("数値の引数はドメイン外です");
            reveal_strlit("計算結果は範囲外の値です");
            reveal_strlit("リソースのデッドロック回避");
            reveal_strlit("ファイル名が長すぎます");
            reveal_strlit("ロックが利用できません");
            reveal_strlit("関数は実装されていません");
            reveal_strlit("ディレクトリは空ではありません");
            reveal_strlit("シンボリックリンクの階層が多すぎます");
            reveal_strlit("要求した形式のメッセージはありません");
            reveal_strlit("識別子を除去しました");
            reveal_strlit("チャンネル番号が範囲外です");
            reveal_strlit("レベル2は同期していません");
            reveal_strlit("レベル3停止");
            reveal_strlit("レベル3はリセットしました");
            reveal_strlit("リンク数が範囲外です");
            reveal_strlit("プロトコルドライバがアタッチされていません");
            reveal_strlit("CSI 構造が利用できません");
            reveal_strlit("レベル2停止");
            reveal_strlit("無効な交換です");
            reveal_strlit("無効なリクエスト記述子です");
            reveal_strlit("アノードがありません");
            reveal_strlit("無効なリクエストコードです");
            reveal_strlit("無効なスロットです");
            reveal_strlit("不正なフォントファイル形式です");
            reveal_strlit("デバイスはストリーム型ではありません");
            reveal_strlit("利用可能なデータがありません");
            reveal_strlit("タイマが破棄されました");
            reveal_strlit("ストリームリソース外です");
            reveal_strlit("マシンはネットワークにつながっていません");
            reveal_strlit("パッケージはインストールされていません");
            reveal_strlit("オブジェクトはリモートにあります");
            reveal_strlit("リンクが切れています");
            reveal_strlit("Advertiseエラー");
            reveal_strlit("Srmount エラー");
            reveal_strlit("送信中の通信エラー");
            reveal_strlit("プロトコルエラー");
            reveal_strlit("多重ホップが企てられました");
            reveal_strlit("RFS特定エラー");
            reveal_strlit("不正なメッセージです");
            reveal_strlit("定義されたデータ型に対して値が大きすぎます");
            reveal_strlit("名前がネットワーク上で重複しています");
            reveal_strlit("ファイル記述子が不正の状態にあります");
            reveal_strlit("遠隔アドレスが変更されました");
            reveal_strlit("必要な共有ライブラリにアクセスできません");
            reveal_strlit("壊れた共有ライブラリにアクセスしています");
            reveal_strlit("a.out 中の .lib セクションが壊れています");
            reveal_strlit("あまりに多過ぎる共有ライブラリへリンクしようとしています");
            reveal_strlit("共有ライブラリは直接実行できません");
            reveal_strlit("無効または不完全なマルチバイトまたはワイド文字です");
            reveal_strlit("割り込まれたシステムコールは再スタートさせるべきです");
            reveal_strlit("ストリームパイプエラー");
            reveal_strlit("ユーザが多すぎます");
            reveal_strlit("ソケットでないものにソケット操作をしています");
            reveal_strlit("送信先アドレスが必要です");
            reveal_strlit("メッセージが長すぎます");
            reveal_strlit("ソケットに対し間違ったプロトコルの形式です");
            reveal_strlit("プロトコルは利用できません");
            reveal_strlit("プロトコルはサポートされていません");
            reveal_strlit("ソケット形式はサポートしていません");
            reveal_strlit("サポートされていない操作です");
            reveal_strlit("プロトコルファミリはサポートしていません");
            reveal_strlit("アドレスファミリはプロトコルによってサポートされていません");
            reveal_strlit("アドレスは既に使用中です");
            reveal_strlit("要求アドレスに割り当てられません");
            reveal_strlit("ネットワークが落ちています");
            reveal_strlit("ネットワークに届きません");
            reveal_strlit("リセット中ネットワークの接続が切れました");
            reveal_strlit("ソフトウェアが接続を中断しました");
            reveal_strlit("接続が相手からリセットされました");
            reveal_strlit("利用可能な空きバッファがありません");
            reveal_strlit("通信端点が既に接続されています");
            reveal_strlit("通信端点が接続されていません");
            reveal_strlit("通信端点のシャットダウン後は送信できません");
            reveal_strlit("参照が多すぎます: 接続できません");
            reveal_strlit("接続がタイムアウトしました");
            reveal_strlit("接続を拒否されました");
            reveal_strlit("ホストが落ちています");
            reveal_strlit("ホストへの経路がありません");
            reveal_strlit("操作はすでに処理中です");
            reveal_strlit("現在処理中の操作です");
            reveal_strlit("古いファイルハンドルです");
            reveal_strlit("構造体を内容消去する必要があります");
            reveal_strlit("XENIX の名前付きファイルではありません");
            reveal_strlit("XENIX セマフォが利用できません");
            reveal_strlit("名前付きファイルです");
            reveal_strlit("遠隔I/Oエラーです");
            reveal_strlit("ディスク使用量制限を超過しました");
            reveal_strlit("メディアが見つかりません");
            reveal_strlit("不正なメディア形式です");
            reveal_strlit("操作は中断されました");
            reveal_strlit("要求されたキーが利用できません");
            reveal_strlit("キーが期限切れです");
            reveal_strlit("キーが破棄されています");
            reveal_strlit("キーがサービスによって拒否されました");
            reveal_strlit("所有者が無くなりました");
            reveal_strlit("状態の復帰が出来ません");
            reveal_strlit("RF-kill のため操作は不可能です");
        }
    }
}

} // verus!
