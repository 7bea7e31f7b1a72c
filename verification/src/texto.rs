//! Texto: o que o resto do núcleo precisa fazer com `str` e `String`.
//!
//! Tudo aqui trabalha sobre a sequência de caracteres (`s@`). Aparar, partir
//! em linhas e escrever número em decimal têm cada um uma função de
//! especificação curta, e o código executável é provado contra ela.

use vstd::prelude::*;

verus! {

broadcast use vstd::string::group_string_axioms;

// ------------------------------------------------------------ conversões

/// Os caracteres de um texto, na ordem.
pub fn chars_de(s: &str) -> (v: Vec<char>)
    ensures
        v@ == s@,
{
    let mut v: Vec<char> = Vec::new();
    for c in it: s.chars()
        invariant
            v@ == it.seq().take(it.index() as int),
            it.seq() == s@,
    {
        v.push(c);
    }
    v
}

/// Monta um `String` a partir dos caracteres (`FromIterator<char>` de `String`).
#[verifier::external_body]
pub fn string_de(v: &Vec<char>) -> (s: String)
    ensures
        s@ == v@,
{
    v.iter().collect()
}

/// Dois textos são iguais, caractere por caractere.
pub fn iguais(a: &str, b: &str) -> (r: bool)
    ensures
        r <==> a@ == b@,
{
    a.to_string() == b.to_string()
}

/// Um `String` com o mesmo conteúdo de um `&str`.
pub fn dono(s: &str) -> (r: String)
    ensures
        r@ == s@,
{
    s.to_string()
}

/// Acrescenta os caracteres de `s` ao fim de `v`.
pub fn anexar(v: &mut Vec<char>, s: &str)
    ensures
        final(v)@ == old(v)@ + s@,
{
    let ghost antes = v@;
    for c in it: s.chars()
        invariant
            v@ == antes + it.seq().take(it.index() as int),
            it.seq() == s@,
    {
        v.push(c);
        proof {
            assert(it.seq().take(it.index() + 1) == it.seq().take(it.index() as int).push(c));
        }
    }
    proof {
        assert(s@.take(s@.len() as int) == s@);
    }
}

/// Acrescenta uma sequência de caracteres ao fim de outra.
pub fn anexar_chars(v: &mut Vec<char>, s: &Vec<char>)
    ensures
        final(v)@ == old(v)@ + s@,
{
    let ghost antes = v@;
    let mut i: usize = 0;
    while i < s.len()
        invariant
            i <= s.len(),
            v@ == antes + s@.take(i as int),
        decreases s.len() - i,
    {
        v.push(s[i]);
        proof {
            assert(s@.take(i + 1) == s@.take(i as int).push(s@[i as int]));
        }
        i = i + 1;
    }
    proof {
        assert(s@.take(s@.len() as int) == s@);
    }
}

// ------------------------------------------------------------ espaço

/// `char::is_whitespace`: a propriedade `White_Space` do Unicode.
pub open spec fn e_espaco(c: char) -> bool {
    let n = c as u32;
    (0x9 <= n && n <= 0xd) || n == 0x20 || n == 0x85 || n == 0xa0 || n == 0x1680 || (0x2000
        <= n && n <= 0x200a) || n == 0x2028 || n == 0x2029 || n == 0x202f || n == 0x205f || n
        == 0x3000
}

pub fn eh_espaco(c: char) -> (r: bool)
    ensures
        r == e_espaco(c),
{
    let n = c as u32;
    (0x9 <= n && n <= 0xd) || n == 0x20 || n == 0x85 || n == 0xa0 || n == 0x1680 || (0x2000 <= n
        && n <= 0x200a) || n == 0x2028 || n == 0x2029 || n == 0x202f || n == 0x205f || n == 0x3000
}

/// `char::is_control`: a categoria geral `Cc` do Unicode.
pub open spec fn e_controle(c: char) -> bool {
    let n = c as u32;
    n <= 0x1f || (0x7f <= n && n <= 0x9f)
}

pub fn eh_controle(c: char) -> (r: bool)
    ensures
        r == e_controle(c),
{
    let n = c as u32;
    n <= 0x1f || (0x7f <= n && n <= 0x9f)
}

// ------------------------------------------------------------ aparar

/// O que se tira das pontas ao aparar.
#[derive(Clone, Copy, PartialEq, Eq)]
pub enum Corte {
    /// `trim`: espaço em branco.
    Espaco,
    /// `trim_matches('.')`.
    Ponto,
}

pub open spec fn corta(modo: Corte, c: char) -> bool {
    match modo {
        Corte::Espaco => e_espaco(c),
        Corte::Ponto => c == '.',
    }
}

fn cortaria(modo: Corte, c: char) -> (r: bool)
    ensures
        r == corta(modo, c),
{
    match modo {
        Corte::Espaco => eh_espaco(c),
        Corte::Ponto => c == '.',
    }
}

/// Tira do começo tudo que o modo corta.
pub open spec fn sem_inicio(s: Seq<char>, modo: Corte) -> Seq<char>
    decreases s.len(),
{
    if s.len() > 0 && corta(modo, s[0]) {
        sem_inicio(s.drop_first(), modo)
    } else {
        s
    }
}

/// Tira do fim tudo que o modo corta.
pub open spec fn sem_fim(s: Seq<char>, modo: Corte) -> Seq<char>
    decreases s.len(),
{
    if s.len() > 0 && corta(modo, s.last()) {
        sem_fim(s.drop_last(), modo)
    } else {
        s
    }
}

/// Tira das duas pontas.
pub open spec fn aparado_por(s: Seq<char>, modo: Corte) -> Seq<char> {
    sem_fim(sem_inicio(s, modo), modo)
}

/// `str::trim`.
pub open spec fn aparado(s: Seq<char>) -> Seq<char> {
    aparado_por(s, Corte::Espaco)
}

proof fn lema_sem_inicio(s: Seq<char>, modo: Corte, i: int)
    requires
        0 <= i <= s.len(),
        forall|k: int| 0 <= k < i ==> corta(modo, #[trigger] s[k]),
        i == s.len() || !corta(modo, s[i]),
    ensures
        sem_inicio(s, modo) == s.subrange(i, s.len() as int),
    decreases i,
{
    if i == 0 {
        assert(s.subrange(0, s.len() as int) == s);
    } else {
        let r = s.drop_first();
        assert(corta(modo, s[0]));
        assert forall|k: int| 0 <= k < i - 1 implies corta(modo, #[trigger] r[k]) by {
            assert(r[k] == s[k + 1]);
        }
        if i - 1 < r.len() {
            assert(r[i - 1] == s[i]);
        }
        lema_sem_inicio(r, modo, i - 1);
        assert(r.subrange(i - 1, r.len() as int) == s.subrange(i, s.len() as int));
    }
}

proof fn lema_sem_fim(s: Seq<char>, modo: Corte, j: int)
    requires
        0 <= j <= s.len(),
        forall|k: int| j <= k < s.len() ==> corta(modo, #[trigger] s[k]),
        j == 0 || !corta(modo, s[j - 1]),
    ensures
        sem_fim(s, modo) == s.subrange(0, j),
    decreases s.len() - j,
{
    if j == s.len() {
        assert(s.subrange(0, s.len() as int) == s);
    } else {
        let r = s.drop_last();
        assert(corta(modo, s[s.len() - 1]));
        assert forall|k: int| j <= k < r.len() implies corta(modo, #[trigger] r[k]) by {
            assert(r[k] == s[k]);
        }
        if j > 0 {
            assert(r[j - 1] == s[j - 1]);
        }
        lema_sem_fim(r, modo, j);
        assert(r.subrange(0, j) == s.subrange(0, j));
    }
}

/// Apara as pontas de uma sequência de caracteres.
pub fn aparar_chars(v: &Vec<char>, modo: Corte) -> (r: Vec<char>)
    ensures
        r@ == aparado_por(v@, modo),
{
    let mut i: usize = 0;
    while i < v.len() && cortaria(modo, v[i])
        invariant
            i <= v.len(),
            forall|k: int| 0 <= k < i ==> corta(modo, #[trigger] v@[k]),
        decreases v.len() - i,
    {
        i = i + 1;
    }
    proof {
        lema_sem_inicio(v@, modo, i as int);
    }
    let ghost meio = v@.subrange(i as int, v@.len() as int);
    let mut j: usize = v.len();
    while j > i && cortaria(modo, v[j - 1])
        invariant
            i <= j <= v.len(),
            forall|k: int| j <= k < v.len() ==> corta(modo, #[trigger] v@[k]),
        decreases j,
    {
        j = j - 1;
    }
    let mut r: Vec<char> = Vec::new();
    let mut k: usize = i;
    while k < j
        invariant
            i <= k <= j,
            j <= v.len(),
            r@ == v@.subrange(i as int, k as int),
        decreases j - k,
    {
        r.push(v[k]);
        proof {
            assert(v@.subrange(i as int, k + 1) == v@.subrange(i as int, k as int).push(v@[k as int]));
        }
        k = k + 1;
    }
    proof {
        let n = j - i;
        assert forall|q: int| n <= q < meio.len() implies corta(modo, #[trigger] meio[q]) by {
            assert(meio[q] == v@[q + i]);
        }
        if n > 0 {
            assert(meio[n - 1] == v@[j - 1]);
        }
        lema_sem_fim(meio, modo, n as int);
        assert(meio.subrange(0, n as int) == v@.subrange(i as int, j as int));
    }
    r
}

/// `str::trim` devolvendo um `String` novo.
pub fn aparar(s: &str) -> (r: String)
    ensures
        r@ == aparado(s@),
{
    let v = chars_de(s);
    let a = aparar_chars(&v, Corte::Espaco);
    string_de(&a)
}

/// `s.trim().is_empty()`: o texto só tem espaço em branco.
pub fn em_branco(s: &str) -> (r: bool)
    ensures
        r == (aparado(s@).len() == 0),
{
    let v = chars_de(s);
    let a = aparar_chars(&v, Corte::Espaco);
    a.len() == 0
}

// ------------------------------------------------------------ linhas

/// Onde está o primeiro `\n`, ou o tamanho quando não há nenhum.
pub open spec fn primeiro_nl(s: Seq<char>) -> int
    decreases s.len(),
{
    if s.len() == 0 {
        0
    } else if s[0] == '\n' {
        0
    } else {
        1 + primeiro_nl(s.drop_first())
    }
}

/// Uma linha sem o `\r` do fim, quando há um.
pub open spec fn sem_cr(s: Seq<char>) -> Seq<char> {
    if s.len() > 0 && s.last() == '\r' {
        s.drop_last()
    } else {
        s
    }
}

/// `str::lines`: parte em `\n`, tira o `\r` de um `\r\n`, e uma quebra no
/// fim não conta como linha vazia a mais.
pub open spec fn linhas(s: Seq<char>) -> Seq<Seq<char>>
    decreases s.len(),
{
    if s.len() == 0 {
        seq![]
    } else {
        let k = primeiro_nl(s);
        if 0 <= k < s.len() {
            seq![sem_cr(s.subrange(0, k))] + linhas(s.subrange(k + 1, s.len() as int))
        } else {
            seq![s]
        }
    }
}

proof fn lema_primeiro_nl(s: Seq<char>, k: int)
    requires
        0 <= k <= s.len(),
        forall|q: int| 0 <= q < k ==> #[trigger] s[q] != '\n',
        k == s.len() || s[k] == '\n',
    ensures
        primeiro_nl(s) == k,
    decreases k,
{
    if k > 0 {
        let r = s.drop_first();
        assert forall|q: int| 0 <= q < k - 1 implies #[trigger] r[q] != '\n' by {
            assert(r[q] == s[q + 1]);
        }
        if k - 1 < r.len() {
            assert(r[k - 1] == s[k]);
        }
        lema_primeiro_nl(r, k - 1);
    }
}

/// As linhas de um texto, cada uma como sequência de caracteres.
pub fn partir_linhas(v: &Vec<char>) -> (r: Vec<Vec<char>>)
    ensures
        r@.len() == linhas(v@).len(),
        forall|i: int| 0 <= i < r@.len() ==> (#[trigger] r@[i])@ == linhas(v@)[i],
{
    let mut r: Vec<Vec<char>> = Vec::new();
    let mut ini: usize = 0;
    proof {
        assert(v@.subrange(0, v@.len() as int) == v@);
        assert(r@.map_values(|l: Vec<char>| l@) == Seq::<Seq<char>>::empty());
        assert(Seq::<Seq<char>>::empty() + linhas(v@) == linhas(v@));
    }
    while ini < v.len()
        invariant
            ini <= v.len(),
            linhas(v@) == r@.map_values(|l: Vec<char>| l@) + linhas(v@.subrange(ini as int, v@.len() as int)),
        decreases v.len() - ini,
    {
        let ghost resto = v@.subrange(ini as int, v@.len() as int);
        let mut k: usize = ini;
        while k < v.len() && v[k] != '\n'
            invariant
                ini <= k <= v.len(),
                forall|q: int| ini <= q < k ==> #[trigger] v@[q] != '\n',
            decreases v.len() - k,
        {
            k = k + 1;
        }
        proof {
            assert forall|q: int| 0 <= q < k - ini implies #[trigger] resto[q] != '\n' by {
                assert(resto[q] == v@[q + ini]);
            }
            if k < v.len() {
                assert(resto[k - ini] == v@[k as int]);
            }
            lema_primeiro_nl(resto, k - ini);
        }
        let mut fim: usize = k;
        if k < v.len() && fim > ini && v[fim - 1] == '\r' {
            fim = fim - 1;
        }
        let mut linha: Vec<char> = Vec::new();
        let mut q: usize = ini;
        while q < fim
            invariant
                ini <= q <= fim,
                fim <= v.len(),
                linha@ == v@.subrange(ini as int, q as int),
            decreases fim - q,
        {
            linha.push(v[q]);
            proof {
                assert(v@.subrange(ini as int, q + 1) == v@.subrange(ini as int, q as int).push(
                    v@[q as int],
                ));
            }
            q = q + 1;
        }
        let ghost antes = r@;
        r.push(linha);
        proof {
            assert(r@.map_values(|l: Vec<char>| l@) == antes.map_values(|l: Vec<char>| l@).push(
                linha@,
            ));
            if k < v.len() {
                let cab = resto.subrange(0, k - ini);
                assert(cab == v@.subrange(ini as int, k as int));
                assert(resto.subrange(k - ini + 1, resto.len() as int) == v@.subrange(
                    k + 1,
                    v@.len() as int,
                ));
                if fim < k {
                    assert(cab.last() == '\r');
                    assert(cab.drop_last() == v@.subrange(ini as int, fim as int));
                } else {
                    assert(sem_cr(cab) == cab);
                }
                assert(linhas(resto) == seq![sem_cr(cab)] + linhas(
                    v@.subrange(k + 1, v@.len() as int),
                ));
            } else {
                assert(resto == v@.subrange(ini as int, k as int));
                assert(linhas(resto) == seq![resto]);
                assert(v@.subrange(k as int, v@.len() as int) == Seq::<char>::empty());
            }
        }
        if k < v.len() {
            ini = k + 1;
        } else {
            ini = k;
        }
    }
    proof {
        assert(v@.subrange(ini as int, v@.len() as int) == Seq::<char>::empty());
        assert(linhas(Seq::<char>::empty()) == Seq::<Seq<char>>::empty());
        assert(r@.map_values(|l: Vec<char>| l@) + Seq::<Seq<char>>::empty() == r@.map_values(
            |l: Vec<char>| l@,
        ));
    }
    r
}

// ------------------------------------------------------------ números

pub open spec fn digito(n: nat) -> char
    recommends
        n < 10,
{
    ((n + 48) as u32) as char
}

/// A escrita decimal de um número natural, como o `Display` dos inteiros.
pub open spec fn decimal(n: nat) -> Seq<char>
    decreases n,
{
    if n < 10 {
        seq![digito(n)]
    } else {
        decimal(n / 10).push(digito(n % 10))
    }
}

/// `n.to_string()` para `u64`.
pub fn escrever_decimal(n: u64) -> (r: Vec<char>)
    ensures
        r@ == decimal(n as nat),
    decreases n,
{
    let d = ((n % 10) as u8 + 48u8) as char;
    proof {
        assert(d == digito((n % 10) as nat));
    }
    if n < 10 {
        let mut r: Vec<char> = Vec::new();
        r.push(d);
        r
    } else {
        let mut r = escrever_decimal(n / 10);
        r.push(d);
        r
    }
}

// ------------------------------------------------------------ recortes

/// Os primeiros `n` caracteres (`chars().take(n)`).
pub open spec fn ate(s: Seq<char>, n: nat) -> Seq<char> {
    if s.len() <= n {
        s
    } else {
        s.take(n as int)
    }
}

pub fn primeiros(v: &Vec<char>, n: usize) -> (r: Vec<char>)
    ensures
        r@ == ate(v@, n as nat),
{
    let mut r: Vec<char> = Vec::new();
    let mut i: usize = 0;
    while i < v.len() && i < n
        invariant
            i <= v@.len(),
            i <= n,
            r@ == v@.take(i as int),
        decreases v@.len() - i,
    {
        r.push(v[i]);
        proof {
            assert(v@.take(i + 1) == v@.take(i as int).push(v@[i as int]));
        }
        i = i + 1;
    }
    proof {
        if v@.len() <= n {
            assert(v@.take(v@.len() as int) == v@);
        }
    }
    r
}

/// Separa caminho: `/` ou `\`.
pub open spec fn e_separador(c: char) -> bool {
    c == '/' || c == '\\'
}

/// O último pedaço depois de `/` ou `\` (`rsplit(['/', '\\']).next()`).
pub open spec fn ultimo_segmento(s: Seq<char>) -> Seq<char>
    decreases s.len(),
{
    if s.len() == 0 {
        s
    } else if e_separador(s.last()) {
        Seq::empty()
    } else {
        ultimo_segmento(s.drop_last()).push(s.last())
    }
}

proof fn lema_ultimo_segmento(s: Seq<char>, i: int)
    requires
        0 <= i <= s.len(),
        forall|k: int| i <= k < s.len() ==> !e_separador(#[trigger] s[k]),
        i == 0 || e_separador(s[i - 1]),
    ensures
        ultimo_segmento(s) == s.subrange(i, s.len() as int),
    decreases s.len(),
{
    if s.len() == 0 {
    } else if i == s.len() {
        assert(e_separador(s.last()));
        assert(s.subrange(i, s.len() as int) == Seq::<char>::empty());
    } else {
        let r = s.drop_last();
        assert(!e_separador(s[s.len() - 1]));
        assert forall|k: int| i <= k < r.len() implies !e_separador(#[trigger] r[k]) by {
            assert(r[k] == s[k]);
        }
        if i > 0 {
            assert(r[i - 1] == s[i - 1]);
        }
        lema_ultimo_segmento(r, i);
        assert(s.subrange(i, s.len() as int) == r.subrange(i, r.len() as int).push(s.last()));
    }
}

pub fn segmento_final(v: &Vec<char>) -> (r: Vec<char>)
    ensures
        r@ == ultimo_segmento(v@),
{
    let mut i: usize = v.len();
    while i > 0 && v[i - 1] != '/' && v[i - 1] != '\\'
        invariant
            i <= v@.len(),
            forall|k: int| i <= k < v@.len() ==> !e_separador(#[trigger] v@[k]),
        decreases i,
    {
        i = i - 1;
    }
    proof {
        lema_ultimo_segmento(v@, i as int);
    }
    let mut r: Vec<char> = Vec::new();
    let mut k: usize = i;
    while k < v.len()
        invariant
            i <= k <= v@.len(),
            r@ == v@.subrange(i as int, k as int),
        decreases v@.len() - k,
    {
        r.push(v[k]);
        proof {
            assert(v@.subrange(i as int, k + 1) == v@.subrange(i as int, k as int).push(v@[k as int]));
        }
        k = k + 1;
    }
    r
}

/// `s` começa com `p`.
pub open spec fn comeca_com(s: Seq<char>, p: Seq<char>) -> bool {
    p.len() <= s.len() && s.take(p.len() as int) == p
}

pub fn comeca_com_chars(v: &Vec<char>, p: &Vec<char>) -> (r: bool)
    ensures
        r == comeca_com(v@, p@),
{
    if p.len() > v.len() {
        return false;
    }
    let mut i: usize = 0;
    while i < p.len()
        invariant
            i <= p@.len(),
            p@.len() <= v@.len(),
            forall|k: int| 0 <= k < i ==> v@[k] == p@[k],
        decreases p@.len() - i,
    {
        if v[i] != p[i] {
            assert(v@.take(p@.len() as int)[i as int] != p@[i as int]);
            return false;
        }
        i = i + 1;
    }
    assert(v@.take(p@.len() as int) =~= p@);
    true
}

/// As partes unidas por um separador (`join`).
pub open spec fn juntar(partes: Seq<Seq<char>>, sep: Seq<char>) -> Seq<char>
    decreases partes.len(),
{
    if partes.len() == 0 {
        Seq::empty()
    } else if partes.len() == 1 {
        partes[0]
    } else {
        juntar(partes.drop_last(), sep) + sep + partes.last()
    }
}

/// Une as partes com o separador.
pub fn juntar_chars(partes: &Vec<Vec<char>>, sep: &str) -> (r: Vec<char>)
    ensures
        r@ == juntar(partes@.map_values(|p: Vec<char>| p@), sep@),
{
    let ghost ps = partes@.map_values(|p: Vec<char>| p@);
    let mut r: Vec<char> = Vec::new();
    let mut i: usize = 0;
    while i < partes.len()
        invariant
            i <= partes@.len(),
            ps == partes@.map_values(|p: Vec<char>| p@),
            r@ == juntar(ps.take(i as int), sep@),
        decreases partes@.len() - i,
    {
        proof {
            assert(ps.take(i + 1).drop_last() == ps.take(i as int));
            assert(ps.take(i + 1).last() == partes@[i as int]@);
        }
        if i > 0 {
            anexar(&mut r, sep);
        } else {
            assert(ps.take(1)[0] == partes@[0]@);
        }
        anexar_chars(&mut r, &partes[i]);
        i = i + 1;
    }
    proof {
        assert(ps.take(ps.len() as int) == ps);
    }
    r
}

// ------------------------------------------------------------ caixa

/// `str::to_lowercase`: o mapeamento de minúsculas do Unicode, caractere por
/// caractere e com as regras de contexto do sigma final.
pub uninterp spec fn minusculas(s: Seq<char>) -> Seq<char>;

/// Chama `str::to_lowercase`.
#[verifier::external_body]
pub fn em_minusculas(s: &str) -> (r: String)
    ensures
        r@ == minusculas(s@),
{
    s.to_lowercase()
}

} // verus!
