//! O substrato: a pasta do workspace, e nada além dela.
//!
//! Qualquer caminho que escape da pasta é negado antes de chegar ao disco. A
//! barreira de texto mora aqui ([`sai_do_escopo`]); resolver o caminho de
//! verdade, link simbólico incluído, é da borda, que só chega ao disco depois
//! de passar por ela. Aqui também: o nome de arquivo de uma nota, o caminho
//! de um item listado, a ordem em que a pasta aparece e a recusa de arquivo
//! grande demais.

use crate::erro::{invalido_de, Erro};
use crate::json::{campo, como_str, como_texto_spec, campo_spec, conteudo_json, texto_do_campo, ValorJson};
use crate::texto::{
    anexar, anexar_chars, aparado, aparado_por, aparar_chars, chars_de, decimal, e_controle,
    eh_controle, em_branco, em_minusculas, escrever_decimal, minusculas, string_de, Corte,
};
use vstd::multiset::Multiset;
use vstd::prelude::*;

verus! {

broadcast use {vstd::string::group_string_axioms, vstd::seq_lib::group_to_multiset_ensures};

/// Um item da árvore de arquivos, do jeito que o nó desenha.
#[derive(Debug, Clone, PartialEq)]
pub struct ItemArquivo {
    /// Caminho relativo à pasta do workspace, sempre com `/`.
    pub caminho: String,
    pub nome: String,
    pub pasta: bool,
    pub tamanho: u64,
}

/// Teto de leitura: 2 MB.
pub const TETO_LEITURA: u64 = 2 * 1024 * 1024;

// ------------------------------------------------------------------ escopo

/// Separador de caminho, nas duas grafias.
pub open spec fn e_barra(c: char) -> bool {
    c == '/' || c == '\\'
}

/// Há um segmento `..` começando em `i`.
pub open spec fn volta_em(s: Seq<char>, i: int) -> bool {
    &&& 0 <= i
    &&& i + 2 <= s.len()
    &&& s[i] == '.'
    &&& s[i + 1] == '.'
    &&& (i == 0 || e_barra(s[i - 1]))
    &&& (i + 2 == s.len() || e_barra(s[i + 2]))
}

/// O caminho sai da pasta só pelo texto: começa na raiz, começa num volume
/// (`C:`), ou tem um segmento `..`.
pub open spec fn sai_do_escopo_spec(s: Seq<char>) -> bool {
    ||| (s.len() > 0 && e_barra(s[0]))
    ||| (s.len() >= 2 && s[1] == ':')
    ||| exists|i: int| #[trigger] volta_em(s, i)
}

/// A barreira barata: erra rápido, antes de olhar o disco.
pub fn sai_do_escopo(relativo: &str) -> (r: bool)
    ensures
        r == sai_do_escopo_spec(relativo@),
{
    let s = chars_de(relativo);
    let n = s.len();
    if n > 0 && (s[0] == '/' || s[0] == '\\') {
        return true;
    }
    if n >= 2 && s[1] == ':' {
        return true;
    }
    let mut i: usize = 0;
    while n > 0 && i < n - 1
        invariant
            n == s@.len(),
            s@ == relativo@,
            forall|k: int| 0 <= k < i ==> !volta_em(s@, k),
        decreases n - i,
    {
        let antes_ok = i == 0 || s[i - 1] == '/' || s[i - 1] == '\\';
        let depois_ok = i + 2 == n || s[i + 2] == '/' || s[i + 2] == '\\';
        if s[i] == '.' && s[i + 1] == '.' && antes_ok && depois_ok {
            assert(volta_em(s@, i as int));
            return true;
        }
        i = i + 1;
    }
    assert forall|k: int| !(#[trigger] volta_em(s@, k)) by {
        if 0 <= k < i {
        }
    }
    false
}

/// A barreira como resultado: `ForaDoEscopo`, que nunca diz o caminho tentado.
pub fn barreira_do_escopo(relativo: &str) -> (r: Result<(), Erro>)
    ensures
        sai_do_escopo_spec(relativo@) <==> r == Err::<(), Erro>(Erro::ForaDoEscopo),
        !sai_do_escopo_spec(relativo@) <==> r is Ok,
{
    if sai_do_escopo(relativo) {
        Err(Erro::ForaDoEscopo)
    } else {
        Ok(())
    }
}

// ------------------------------------------------------------------ listar

/// O Git oculto é detalhe de implementação: o que começa com ponto não
/// aparece.
pub fn oculto(nome: &str) -> (r: bool)
    ensures
        r == (nome@.len() > 0 && nome@[0] == '.'),
{
    let s = chars_de(nome);
    s.len() > 0 && s[0] == '.'
}

/// Tira as barras do fim.
pub open spec fn sem_barras_no_fim(s: Seq<char>) -> Seq<char>
    decreases s.len(),
{
    if s.len() > 0 && s.last() == '/' {
        sem_barras_no_fim(s.drop_last())
    } else {
        s
    }
}

/// O caminho de um item listado dentro de `sub`: o nome, na raiz; senão a
/// subpasta sem barra no fim, uma barra, e o nome.
pub open spec fn caminho_do_item_spec(sub: Seq<char>, nome: Seq<char>) -> Seq<char> {
    if aparado(sub).len() == 0 {
        nome
    } else {
        sem_barras_no_fim(sub) + "/"@ + nome
    }
}

pub fn caminho_do_item(sub: &str, nome: &str) -> (r: String)
    ensures
        r@ == caminho_do_item_spec(sub@, nome@),
{
    if em_branco(sub) {
        return nome.to_string();
    }
    let s = chars_de(sub);
    let mut j: usize = s.len();
    assert(s@.take(s@.len() as int) =~= s@);
    while j > 0 && s[j - 1] == '/'
        invariant
            j <= s@.len(),
            sem_barras_no_fim(s@) == sem_barras_no_fim(s@.take(j as int)),
        decreases j,
    {
        proof {
            assert(s@.take(j as int).drop_last() == s@.take(j - 1));
        }
        j = j - 1;
    }
    proof {
        assert(s@.take(s@.len() as int) == s@);
    }
    let mut v: Vec<char> = Vec::new();
    let mut k: usize = 0;
    while k < j
        invariant
            k <= j <= s@.len(),
            v@ == s@.take(k as int),
        decreases j - k,
    {
        v.push(s[k]);
        proof {
            assert(s@.take(k + 1) == s@.take(k as int).push(s@[k as int]));
        }
        k = k + 1;
    }
    anexar(&mut v, "/");
    anexar(&mut v, nome);
    string_de(&v)
}

/// `a` vem antes de `b`, ou empata, na ordem dos caracteres.
pub open spec fn lex_le(a: Seq<char>, b: Seq<char>) -> bool
    decreases a.len(),
{
    if a.len() == 0 {
        true
    } else if b.len() == 0 {
        false
    } else if a[0] != b[0] {
        a[0] < b[0]
    } else {
        lex_le(a.drop_first(), b.drop_first())
    }
}

proof fn lema_lex_total(a: Seq<char>, b: Seq<char>)
    ensures
        lex_le(a, b) || lex_le(b, a),
    decreases a.len(),
{
    if a.len() > 0 && b.len() > 0 && a[0] == b[0] {
        lema_lex_total(a.drop_first(), b.drop_first());
    }
}

proof fn lema_lex_transitiva(a: Seq<char>, b: Seq<char>, c: Seq<char>)
    requires
        lex_le(a, b),
        lex_le(b, c),
    ensures
        lex_le(a, c),
    decreases a.len(),
{
    if a.len() > 0 && b.len() > 0 && c.len() > 0 && a[0] == b[0] && b[0] == c[0] {
        lema_lex_transitiva(a.drop_first(), b.drop_first(), c.drop_first());
    }
}

/// Pastas primeiro, depois arquivos; em cada grupo, pelo nome em minúsculas.
pub open spec fn vem_antes(a: ItemArquivo, b: ItemArquivo) -> bool {
    ||| (a.pasta && !b.pasta)
    ||| (a.pasta == b.pasta && lex_le(minusculas(a.nome@), minusculas(b.nome@)))
}

proof fn lema_ordem_total(a: ItemArquivo, b: ItemArquivo)
    ensures
        vem_antes(a, b) || vem_antes(b, a),
{
    lema_lex_total(minusculas(a.nome@), minusculas(b.nome@));
}

proof fn lema_ordem_transitiva(a: ItemArquivo, b: ItemArquivo, c: ItemArquivo)
    requires
        vem_antes(a, b),
        vem_antes(b, c),
    ensures
        vem_antes(a, c),
{
    if a.pasta == b.pasta && b.pasta == c.pasta {
        lema_lex_transitiva(minusculas(a.nome@), minusculas(b.nome@), minusculas(c.nome@));
    }
}

/// Está em ordem: cada item vem antes (ou empata com) os que o seguem.
pub open spec fn em_ordem(s: Seq<ItemArquivo>) -> bool {
    forall|i: int, j: int| 0 <= i < j < s.len() ==> vem_antes(#[trigger] s[i], #[trigger] s[j])
}

fn lex_le_exec(a: &Vec<char>, b: &Vec<char>) -> (r: bool)
    ensures
        r == lex_le(a@, b@),
{
    let mut i: usize = 0;
    assert(a@.skip(0) =~= a@);
    assert(b@.skip(0) =~= b@);
    while i < a.len()
        invariant
            i <= a@.len(),
            i <= b@.len(),
            a@.take(i as int) == b@.take(i as int),
            lex_le(a@, b@) == lex_le(a@.skip(i as int), b@.skip(i as int)),
        decreases a@.len() - i,
    {
        if i >= b.len() {
            return false;
        }
        let x = a[i];
        let y = b[i];
        if x != y {
            proof {
                assert(a@.skip(i as int)[0] == x);
                assert(b@.skip(i as int)[0] == y);
            }
            return x < y;
        }
        proof {
            assert(a@.skip(i as int).drop_first() == a@.skip(i + 1));
            assert(b@.skip(i as int).drop_first() == b@.skip(i + 1));
            assert(a@.take(i + 1) == a@.take(i as int).push(x));
            assert(b@.take(i + 1) == b@.take(i as int).push(y));
        }
        i = i + 1;
    }
    true
}

fn vem_antes_exec(a: &ItemArquivo, b: &ItemArquivo) -> (r: bool)
    ensures
        r == vem_antes(*a, *b),
{
    if a.pasta != b.pasta {
        return a.pasta;
    }
    let na = chars_de(em_minusculas(a.nome.as_str()).as_str());
    let nb = chars_de(em_minusculas(b.nome.as_str()).as_str());
    lex_le_exec(&na, &nb)
}

/// Onde um item entra numa lista: antes do primeiro que não vem antes dele
/// (nem empata com ele); no fim, se não há nenhum.
pub open spec fn lugar(s: Seq<ItemArquivo>, x: ItemArquivo) -> int
    decreases s.len(),
{
    if s.len() == 0 {
        0
    } else if !vem_antes(s[0], x) {
        0
    } else {
        1 + lugar(s.drop_first(), x)
    }
}

/// Os itens postos em ordem um a um, na ordem de chegada: cada um entra
/// depois de todos os que vêm antes dele ou empatam com ele. É isto que faz
/// os empates guardarem a ordem de chegada.
pub open spec fn ordenados(itens: Seq<ItemArquivo>) -> Seq<ItemArquivo>
    decreases itens.len(),
{
    if itens.len() == 0 {
        Seq::empty()
    } else {
        let antes = ordenados(itens.drop_last());
        antes.insert(lugar(antes, itens.last()), itens.last())
    }
}

proof fn lema_lugar(s: Seq<ItemArquivo>, x: ItemArquivo, p: int)
    requires
        0 <= p <= s.len(),
        forall|k: int| 0 <= k < p ==> vem_antes(#[trigger] s[k], x),
        p == s.len() || !vem_antes(s[p], x),
    ensures
        lugar(s, x) == p,
    decreases p,
{
    if p > 0 {
        assert(vem_antes(s[0], x));
        let t = s.drop_first();
        assert forall|k: int| 0 <= k < p - 1 implies vem_antes(#[trigger] t[k], x) by {
            assert(t[k] == s[k + 1]);
        }
        if p < s.len() {
            assert(t[p - 1] == s[p]);
        }
        lema_lugar(t, x, p - 1);
    }
}

/// A ordem da listagem: pastas primeiro, depois arquivos, ambos em ordem
/// alfabética sem ligar para caixa — a que qualquer gerenciador de arquivos
/// usa. Empates guardam a ordem de chegada.
pub fn ordenar_itens(itens: Vec<ItemArquivo>) -> (r: Vec<ItemArquivo>)
    ensures
        r@ == ordenados(itens@),
        r@.to_multiset() == itens@.to_multiset(),
        em_ordem(r@),
{
    broadcast use vstd::multiset::group_multiset_axioms;

    let ghost todos = itens@.to_multiset();
    let ghost original = itens@;
    let mut resto = itens;
    let mut r: Vec<ItemArquivo> = Vec::new();
    let ghost mut feitos: int = 0;
    proof {
        assert(r@.to_multiset() =~= Multiset::<ItemArquivo>::empty());
        assert(r@.to_multiset().add(resto@.to_multiset()) =~= todos);
        assert(original.take(0) =~= Seq::<ItemArquivo>::empty());
        assert(resto@ =~= original.skip(0));
    }
    while resto.len() > 0
        invariant
            r@.to_multiset().add(resto@.to_multiset()) == todos,
            em_ordem(r@),
            0 <= feitos <= original.len(),
            resto@ == original.skip(feitos),
            r@ == ordenados(original.take(feitos)),
        decreases resto@.len(),
    {
        let ghost antes_resto = resto@;
        let x = resto.remove(0);
        proof {
            assert(x == original[feitos]);
            assert(original.take(feitos + 1).drop_last() =~= original.take(feitos));
            assert(original.take(feitos + 1).last() == x);
            assert(resto@ =~= original.skip(feitos + 1));
        }
        let mut p: usize = 0;
        while p < r.len() && vem_antes_exec(&r[p], &x)
            invariant
                p <= r@.len(),
                forall|k: int| 0 <= k < p ==> vem_antes(#[trigger] r@[k], x),
            decreases r@.len() - p,
        {
            p = p + 1;
        }
        let ghost antes = r@;
        proof {
            if p < antes.len() {
                assert(!vem_antes(antes[p as int], x));
                lema_ordem_total(antes[p as int], x);
            }
            lema_lugar(antes, x, p as int);
        }
        r.insert(p, x);
        proof {
            let s2 = r@;
            assert(s2 == antes.insert(p as int, x));
            assert forall|i: int, j: int| 0 <= i < j < s2.len() implies vem_antes(
                #[trigger] s2[i],
                #[trigger] s2[j],
            ) by {
                if j < p {
                    assert(s2[i] == antes[i] && s2[j] == antes[j]);
                } else if j == p {
                    assert(s2[i] == antes[i]);
                } else if i < p {
                    assert(s2[i] == antes[i] && s2[j] == antes[j - 1]);
                    if i < p {
                        if j - 1 >= p {
                            assert(vem_antes(antes[i], antes[j - 1]));
                        }
                    }
                } else if i == p {
                    assert(s2[j] == antes[j - 1]);
                    if j - 1 > p {
                        assert(vem_antes(antes[p as int], antes[j - 1]));
                        lema_ordem_transitiva(x, antes[p as int], antes[j - 1]);
                    }
                } else {
                    assert(s2[i] == antes[i - 1] && s2[j] == antes[j - 1]);
                }
            }
            assert(antes_resto.remove(0) == resto@);
            assert(antes_resto.to_multiset().count(x) > 0) by {
                assert(antes_resto[0] == x);
            }
            assert(r@.to_multiset().add(resto@.to_multiset()) =~= todos);
            feitos = feitos + 1;
        }
    }
    proof {
        assert(original.take(feitos) =~= original);
    }
    r
}

// ------------------------------------------------------------------- notas

/// O que o Windows recusa em nome de arquivo, mais o que confunde caminho e
/// os caracteres de controle, vira `-`. Acento e espaço passam: o nome é do
/// usuário.
pub open spec fn troca(c: char) -> char {
    if c == '/' || c == '\\' || c == ':' || c == '*' || c == '?' || c == '"' || c == '<' || c
        == '>' || c == '|' || c == '\0' || e_controle(c) {
        '-'
    } else {
        c
    }
}

/// O nome limpo: trocado, aparado, sem pontos nas pontas, aparado de novo.
pub open spec fn nome_limpo(nome: Seq<char>) -> Seq<char> {
    aparado(aparado_por(aparado(nome.map_values(|c: char| troca(c))), Corte::Ponto))
}

/// O nome de arquivo de uma nota, a partir do nome do nó.
pub open spec fn arquivo_da_nota_spec(nome: Seq<char>) -> Seq<char> {
    if nome_limpo(nome).len() == 0 {
        "nota.md"@
    } else {
        nome_limpo(nome) + ".md"@
    }
}

/// O nome de arquivo de uma nota, a partir do nome que o usuário deu ao nó.
///
/// A nota é um `.md` na pasta do workspace: o usuário abre no editor dele,
/// manda por e-mail, versiona.
pub fn arquivo_da_nota(nome_do_no: &str) -> (r: String)
    ensures
        r@ == arquivo_da_nota_spec(nome_do_no@),
{
    let cs = chars_de(nome_do_no);
    let mut trocado: Vec<char> = Vec::new();
    let mut i: usize = 0;
    while i < cs.len()
        invariant
            i <= cs@.len(),
            trocado@ == cs@.take(i as int).map_values(|c: char| troca(c)),
        decreases cs@.len() - i,
    {
        let c = cs[i];
        let t = if c == '/' || c == '\\' || c == ':' || c == '*' || c == '?' || c == '"' || c == '<'
            || c == '>' || c == '|' || c == '\0' || eh_controle(c) {
            '-'
        } else {
            c
        };
        trocado.push(t);
        proof {
            assert(cs@.take(i + 1).map_values(|c: char| troca(c)) == cs@.take(i as int).map_values(
                |c: char| troca(c),
            ).push(troca(c)));
        }
        i = i + 1;
    }
    proof {
        assert(cs@.take(cs@.len() as int) == cs@);
    }
    let a = aparar_chars(&trocado, Corte::Espaco);
    let b = aparar_chars(&a, Corte::Ponto);
    let mut limpo = aparar_chars(&b, Corte::Espaco);
    if limpo.len() == 0 {
        return "nota.md".to_string();
    }
    anexar(&mut limpo, ".md");
    string_de(&limpo)
}

/// Em qual arquivo uma nota mora: o `arquivo` da configuração do nó, quando
/// já foi decidido; senão o que sai do nome. Depois de decidido ele não muda
/// com o nome do nó, para renomear no canvas não deixar um `.md` órfão.
pub open spec fn arquivo_do_no_spec(config: ValorJson, nome: Seq<char>) -> Seq<char> {
    match como_texto_spec(campo_spec(config, "arquivo"@)) {
        Some(a) => if aparado(a).len() != 0 {
            a
        } else {
            arquivo_da_nota_spec(nome)
        },
        None => arquivo_da_nota_spec(nome),
    }
}

pub fn arquivo_da_nota_do_no(config: &serde_json::Value, nome: &str) -> (r: String)
    ensures
        r@ == arquivo_do_no_spec(conteudo_json(*config), nome@),
{
    match texto_do_campo(config, "arquivo") {
        Some(a) => {
            if !em_branco(a) {
                return a.to_string();
            }
        },
        None => {},
    }
    arquivo_da_nota(nome)
}

// ------------------------------------------------------------------ leitura

/// Um número de bytes com uma casa decimal de MB, arredondado para o par no
/// empate: como `{:.1}` escreve `bytes / 1048576`.
pub open spec fn decimos_de_mb(bytes: nat) -> nat {
    let q = (bytes * 10) / 1048576;
    let r = (bytes * 10) % 1048576;
    if r > 524288 || (r == 524288 && q % 2 == 1) {
        q + 1
    } else {
        q
    }
}

/// A frase de um arquivo grande demais para abrir.
pub open spec fn grande_demais_spec(bytes: nat) -> Seq<char> {
    let d = decimos_de_mb(bytes);
    "esse arquivo tem "@ + decimal(d / 10) + "."@ + decimal(d % 10)
        + " MB — grande demais para abrir aqui"@
}

/// A recusa de um arquivo acima do teto de leitura, ou nada.
pub fn recusa_por_tamanho(tamanho: u64) -> (r: Option<Erro>)
    ensures
        tamanho <= TETO_LEITURA ==> r is None,
        tamanho > TETO_LEITURA ==> (r matches Some(Erro::Invalido(m)) && m@ == grande_demais_spec(
            tamanho as nat,
        )),
{
    if tamanho <= TETO_LEITURA {
        return None;
    }
    let dez: u128 = (tamanho as u128) * 10;
    let q: u128 = dez / 1048576;
    let r: u128 = dez % 1048576;
    let d: u128 = if r > 524288 || (r == 524288 && q % 2 == 1) {
        q + 1
    } else {
        q
    };
    assert(d == decimos_de_mb(tamanho as nat));
    assert(d / 10 <= u64::MAX) by (nonlinear_arith)
        requires
            d <= (tamanho as u128) * 10 / 1048576 + 1,
            tamanho <= u64::MAX,
    ;
    let mut v: Vec<char> = Vec::new();
    anexar(&mut v, "esse arquivo tem ");
    let inteiro = escrever_decimal((d / 10) as u64);
    anexar_chars(&mut v, &inteiro);
    anexar(&mut v, ".");
    let decimo = escrever_decimal((d % 10) as u64);
    anexar_chars(&mut v, &decimo);
    anexar(&mut v, " MB — grande demais para abrir aqui");
    Some(invalido_de(&v))
}

} // verus!
